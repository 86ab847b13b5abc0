use crate::model::into::whole_of;
use crate::model::value::{
    lemma_entry_below, lemma_rendered_mapping, rendered, rendered_entries, rendered_items, Value,
};
use crate::text::{render_decimal, Whole};
use vstd::prelude::*;
use vstd::string::*;

verus! {

/// A part of the text of a value: a text as it stands, or a number of kind
/// `Float` by its bit pattern, whose decimal form the host writes.
#[derive(Debug)]
pub enum Piece {
    Text(String),
    Float(u64),
}

/// The text of one piece, with the decimal forms of numbers given by
/// `float_text`.
pub open spec fn piece_text(piece: Piece, float_text: spec_fn(u64) -> Seq<char>) -> Seq<char> {
    match piece {
        Piece::Text(s) => s@,
        Piece::Float(bits) => float_text(bits),
    }
}

/// The text that a run of pieces makes.
pub open spec fn flat(pieces: Seq<Piece>, float_text: spec_fn(u64) -> Seq<char>) -> Seq<char>
    decreases pieces.len(),
{
    if pieces.len() == 0 {
        Seq::empty()
    } else {
        flat(pieces.drop_last(), float_text) + piece_text(pieces.last(), float_text)
    }
}

/// Appends one piece: the text grows by the text of the piece.
fn push_piece(out: &mut Vec<Piece>, piece: Piece)
    ensures
        final(out)@ == old(out)@.push(piece),
        forall|f: spec_fn(u64) -> Seq<char>| #[trigger]
            flat(final(out)@, f) == flat(old(out)@, f) + piece_text(piece, f),
{
    out.push(piece);
    assert forall|f: spec_fn(u64) -> Seq<char>| #[trigger]
        flat(out@, f) == flat(old(out)@, f) + piece_text(piece, f) by {
        assert(out@.drop_last() =~= old(out)@);
    }
}

fn push_text(out: &mut Vec<Piece>, text: &str)
    ensures
        forall|f: spec_fn(u64) -> Seq<char>| #[trigger]
            flat(final(out)@, f) == flat(old(out)@, f) + text@,
{
    push_piece(out, Piece::Text(text.to_owned()));
}

impl Value {
    /// Appends the pieces of the text of the value.
    pub fn render(&self, out: &mut Vec<Piece>)
        ensures
            forall|f: spec_fn(u64) -> Seq<char>| #[trigger]
                flat(final(out)@, f) == flat(old(out)@, f) + rendered(*self, f),
        decreases self,
    {
        match self {
            Value::Null => push_text(out, "none"),
            Value::Boolean(b) => push_text(
                out,
                if *b {
                    "true"
                } else {
                    "false"
                },
            ),
            Value::Integer(i) => push_piece(out, Piece::Text(render_decimal(whole_of(*i as i128)))),
            Value::LongInteger(i) => push_piece(out, Piece::Text(render_decimal(whole_of(*i)))),
            Value::UInteger(i) => push_piece(
                out,
                Piece::Text(render_decimal(Whole { negative: false, magnitude: *i as u128 })),
            ),
            Value::ULongInteger(i) => push_piece(
                out,
                Piece::Text(render_decimal(Whole { negative: false, magnitude: *i })),
            ),
            Value::Float(bits) => push_piece(out, Piece::Float(*bits)),
            Value::String(s) => push_piece(out, Piece::Text(s.clone())),
            Value::Array(items) => {
                push_text(out, "[");
                let mut i: usize = 0;
                while i < items.len()
                    invariant
                        *self == Value::Array(*items),
                        i <= items@.len(),
                        forall|f: spec_fn(u64) -> Seq<char>| #[trigger]
                            flat(out@, f) == flat(old(out)@, f) + "["@ + rendered_items(
                                items@.take(i as int),
                                f,
                            ),
                    decreases items@.len() - i,
                {
                    let ghost before = out@;
                    if i > 0 {
                        push_text(out, ", ");
                    }
                    let item = &items[i];
                    assert(self->Array_0[i as int] == *item);
                    item.render(out);
                    proof {
                        assert forall|f: spec_fn(u64) -> Seq<char>| #[trigger]
                            flat(out@, f) == flat(old(out)@, f) + "["@ + rendered_items(
                                items@.take(i + 1),
                                f,
                            ) by {
                            assert(items@.take(i + 1).drop_last() =~= items@.take(i as int));
                            assert(items@.take(i + 1).last() == *item);
                            assert(flat(before, f) == flat(old(out)@, f) + "["@ + rendered_items(
                                items@.take(i as int),
                                f,
                            ));
                            if i == 0 {
                                assert(items@.take(1)[0] == *item);
                                assert(rendered_items(items@.take(0), f) =~= Seq::<char>::empty());
                                assert(flat(out@, f) =~= flat(old(out)@, f) + "["@ + rendered(
                                    *item,
                                    f,
                                ));
                            } else {
                                assert(flat(out@, f) =~= flat(old(out)@, f) + "["@ + (
                                rendered_items(items@.take(i as int), f) + ", "@ + rendered(
                                    *item,
                                    f,
                                )));
                            }
                        }
                    }
                    i += 1;
                }
                assert(items@.take(items@.len() as int) =~= items@);
                let ghost inner = out@;
                push_text(out, "]");
                proof {
                    assert forall|f: spec_fn(u64) -> Seq<char>| #[trigger]
                        flat(out@, f) == flat(old(out)@, f) + rendered(*self, f) by {
                        assert(flat(inner, f) == flat(old(out)@, f) + "["@ + rendered_items(
                            items@,
                            f,
                        ));
                        assert(flat(out@, f) =~= flat(old(out)@, f) + ("["@ + rendered_items(
                            items@,
                            f,
                        ) + "]"@));
                    }
                }
            },
            Value::Mapping(m) => {
                push_text(out, "{");
                let n = m.len();
                let mut i: usize = 0;
                while i < n
                    invariant
                        *self == Value::Mapping(*m),
                        i <= n,
                        n == m.entries().len(),
                        n == m.keys().len(),
                        forall|f: spec_fn(u64) -> Seq<char>| #[trigger]
                            flat(out@, f) == flat(old(out)@, f) + "{"@ + rendered_entries(
                                m.entries().take(i as int),
                                f,
                            ),
                    decreases n - i,
                {
                    let ghost before = out@;
                    if i > 0 {
                        push_text(out, ", ");
                    }
                    let ghost middle = out@;
                    push_piece(out, Piece::Text(m.key_at(i).clone()));
                    push_text(out, ": ");
                    let ghost keyed = out@;
                    let value = m.entry_at(i);
                    proof {
                        lemma_entry_below(*m, i as int);
                        assert(self->Mapping_0 == *m);
                        assert(decreases_to!(*self => *value));
                    }
                    value.render(out);
                    proof {
                        let entries = m.entries();
                        assert forall|f: spec_fn(u64) -> Seq<char>| #[trigger]
                            flat(out@, f) == flat(old(out)@, f) + "{"@ + rendered_entries(
                                entries.take(i + 1),
                                f,
                            ) by {
                            assert(entries.take(i + 1).drop_last() =~= entries.take(i as int));
                            assert(entries.take(i + 1).last() == entries[i as int]);
                            assert(flat(before, f) == flat(old(out)@, f) + "{"@ + rendered_entries(
                                entries.take(i as int),
                                f,
                            ));
                            assert(flat(keyed, f) =~= flat(middle, f) + entries[i as int].0@
                                + ": "@);
                            if i == 0 {
                                assert(entries.take(1)[0] == entries[0]);
                                assert(rendered_entries(entries.take(0), f) =~= Seq::<
                                    char,
                                >::empty());
                                assert(flat(out@, f) =~= flat(old(out)@, f) + "{"@ + (
                                entries[0].0@ + ": "@ + rendered(entries[0].1, f)));
                            } else {
                                assert(flat(out@, f) =~= flat(old(out)@, f) + "{"@ + (
                                rendered_entries(entries.take(i as int), f) + ", "@
                                    + entries[i as int].0@ + ": "@ + rendered(
                                    entries[i as int].1,
                                    f,
                                )));
                            }
                        }
                    }
                    i += 1;
                }
                assert(m.entries().take(n as int) =~= m.entries());
                let ghost inner = out@;
                push_text(out, "}");
                proof {
                    assert forall|f: spec_fn(u64) -> Seq<char>| #[trigger]
                        flat(out@, f) == flat(old(out)@, f) + rendered(*self, f) by {
                        lemma_rendered_mapping(*m, f);
                        assert(flat(inner, f) == flat(old(out)@, f) + "{"@ + rendered_entries(
                            m.entries(),
                            f,
                        ));
                        assert(flat(out@, f) =~= flat(old(out)@, f) + ("{"@ + rendered_entries(
                            m.entries(),
                            f,
                        ) + "}"@));
                    }
                }
            },
        }
    }

    /// The pieces of the text of the value. Put one behind the other, with
    /// each number of kind `Float` in its decimal form, they are the text.
    pub fn pieces(&self) -> (list: Vec<Piece>)
        ensures
            forall|f: spec_fn(u64) -> Seq<char>| #[trigger] flat(list@, f) == rendered(*self, f),
    {
        let mut list: Vec<Piece> = Vec::new();
        self.render(&mut list);
        assert forall|f: spec_fn(u64) -> Seq<char>| #[trigger]
            flat(list@, f) == rendered(*self, f) by {
            assert(Seq::<char>::empty() + rendered(*self, f) =~= rendered(*self, f));
        }
        list
    }
}

} // verus!
