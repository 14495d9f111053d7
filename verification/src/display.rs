//! The line of text that shows what was rolled.
//!
//! Every die on the table contributes one token, in the order in which the
//! dice were created: the numeral of its face once it is resolved, and a
//! question mark while it is still in flight. The tokens are joined by
//! single spaces.

use crate::face::Face;
use vstd::prelude::*;
use vstd::string::*;

verus! {

/// The token that stands for a die that is still in flight.
pub const PLACEHOLDER: char = '?';

/// What separates two tokens.
pub const SEPARATOR: char = ' ';

/// The token of one die: the numeral of its face, or the placeholder.
pub open spec fn token(value: Option<Face>) -> char {
    match value {
        None => PLACEHOLDER,
        Some(Face::One) => '1',
        Some(Face::Two) => '2',
        Some(Face::Three) => '3',
        Some(Face::Four) => '4',
        Some(Face::Five) => '5',
        Some(Face::Six) => '6',
    }
}

/// The text for the given values: empty for no dice, and for `n` dice the
/// `2 n - 1` characters that hold the token of die `i` at place `2 i` and a
/// separator at every odd place.
pub open spec fn summary_text(values: Seq<Option<Face>>) -> Seq<char> {
    if values.len() == 0 {
        Seq::empty()
    } else {
        Seq::new(
            (2 * values.len() - 1) as nat,
            |i: int|
                if i % 2 == 0 {
                    token(values[i / 2])
                } else {
                    SEPARATOR
                },
        )
    }
}

/// The token of one die as a string of one character.
fn token_str(value: Option<Face>) -> (text: &'static str)
    ensures
        text@ == seq![token(value)],
{
    proof {
        reveal_strlit("?");
        reveal_strlit("1");
        reveal_strlit("2");
        reveal_strlit("3");
        reveal_strlit("4");
        reveal_strlit("5");
        reveal_strlit("6");
    }
    let text = match value {
        None => "?",
        Some(Face::One) => "1",
        Some(Face::Two) => "2",
        Some(Face::Three) => "3",
        Some(Face::Four) => "4",
        Some(Face::Five) => "5",
        Some(Face::Six) => "6",
    };
    assert(text@ =~= seq![token(value)]);
    text
}

/// The text that shows the given values, one token per die, joined by
/// single spaces.
pub fn summary(values: &Vec<Option<Face>>) -> (text: String)
    ensures
        text@ == summary_text(values@),
{
    let mut text = String::new();
    let mut i: usize = 0;
    while i < values.len()
        invariant
            i <= values.len(),
            text@ == summary_text(values@.take(i as int)),
        decreases values.len() - i,
    {
        if i > 0 {
            proof {
                reveal_strlit(" ");
            }
            text.append(" ");
        }
        text.append(token_str(values[i]));
        proof {
            lemma_summary_joins(values@.take(i as int), values@[i as int]);
            assert(values@.take(i as int).push(values@[i as int]) =~= values@.take(i + 1));
        }
        i += 1;
    }
    assert(values@.take(values.len() as int) =~= values@);
    text
}

/// The text is the tokens joined by separators: a further die adds its
/// token, after a separator unless it is the first.
pub proof fn lemma_summary_joins(values: Seq<Option<Face>>, next: Option<Face>)
    ensures
        summary_text(values.push(next)) == if values.len() == 0 {
            seq![token(next)]
        } else {
            summary_text(values) + seq![SEPARATOR, token(next)]
        },
{
    let joined = values.push(next);
    if values.len() == 0 {
        assert(summary_text(joined) =~= seq![token(next)]);
    } else {
        let longer = summary_text(values) + seq![SEPARATOR, token(next)];
        assert(summary_text(joined).len() == longer.len());
        assert forall|i: int| 0 <= i < longer.len() implies summary_text(joined)[i] == longer[i] by {
            if i < 2 * values.len() - 1 {
                assert(joined[i / 2] == values[i / 2]);
            }
        }
        assert(summary_text(joined) =~= longer);
    }
}

/// The text of a throw: the five dice give nine characters, a token at
/// each even place and a space at each odd one, and each token is the
/// placeholder or one of the numerals from 1 to 6, that of the die whose
/// place in the throw it has.
pub proof fn lemma_summary_of_five(values: Seq<Option<Face>>)
    requires
        values.len() == 5,
    ensures
        summary_text(values).len() == 9,
        forall|i: int|
            0 <= i < 5 ==> #[trigger] summary_text(values)[2 * i] == token(values[i]),
        forall|i: int| 0 <= i < 4 ==> #[trigger] summary_text(values)[2 * i + 1] == SEPARATOR,
        forall|i: int|
            0 <= i < 5 ==> (#[trigger] values[i] is None <==> summary_text(values)[2 * i]
                == PLACEHOLDER),
        forall|i: int|
            0 <= i < 5 ==> (#[trigger] values[i] matches Some(face) ==> summary_text(values)[2
                * i] == ('0' as u8 + face.spec_number()) as char),
{
    assert forall|i: int| 0 <= i < 5 implies #[trigger] summary_text(values)[2 * i] == token(
        values[i],
    ) by {
        assert((2 * i) % 2 == 0 && (2 * i) / 2 == i);
    }
    assert forall|i: int| 0 <= i < 4 implies #[trigger] summary_text(values)[2 * i + 1]
        == SEPARATOR by {
        assert((2 * i + 1) % 2 == 1);
    }
}

} // verus!
