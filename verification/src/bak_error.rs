use crate::config_layer::error::ConfigLayerError;
use crate::file_finder::error::FileFinderError;
use crate::model::errors::ModelError;
use vstd::prelude::*;
use vstd::std_specs::convert::FromSpecImpl;

verus! {

/// Every failure of the library, by the part that reports it.
#[derive(Debug)]
pub enum BakuninError {
    /// Reading or writing failed; the text says why.
    IoError(String),
    ModelError(ModelError),
    ConfigLayerError(ConfigLayerError),
    FileFinderError(FileFinderError),
}

impl From<ModelError> for BakuninError {
    fn from(error: ModelError) -> (e: BakuninError) {
        BakuninError::ModelError(error)
    }
}

impl FromSpecImpl<ModelError> for BakuninError {
    open spec fn obeys_from_spec() -> bool {
        true
    }

    open spec fn from_spec(error: ModelError) -> BakuninError {
        BakuninError::ModelError(error)
    }
}

impl From<ConfigLayerError> for BakuninError {
    fn from(error: ConfigLayerError) -> (e: BakuninError) {
        BakuninError::ConfigLayerError(error)
    }
}

impl FromSpecImpl<ConfigLayerError> for BakuninError {
    open spec fn obeys_from_spec() -> bool {
        true
    }

    open spec fn from_spec(error: ConfigLayerError) -> BakuninError {
        BakuninError::ConfigLayerError(error)
    }
}

impl From<FileFinderError> for BakuninError {
    fn from(error: FileFinderError) -> (e: BakuninError) {
        BakuninError::FileFinderError(error)
    }
}

impl FromSpecImpl<FileFinderError> for BakuninError {
    open spec fn obeys_from_spec() -> bool {
        true
    }

    open spec fn from_spec(error: FileFinderError) -> BakuninError {
        BakuninError::FileFinderError(error)
    }
}

} // verus!
