//! The machine-readable form of a message: one JSON record per line.
//!
//! A record is an object with a single key naming the variant, holding the
//! variant's payload: `{"CurrentStatus":"a"}`,
//! `{"Progression":{"max":10,"current":1}}`, `{"Event":"Installing"}`,
//! `{"Event":{"Updating":"x"}}`.
use vstd::prelude::*;
use vstd::string::StringExecFns;
use crate::message::{Event, EventView, Message, MessageView};

verus! {

/// What `serde_json::to_string` returns for a string: the quoted, escaped JSON
/// string literal.
pub uninterp spec fn json_string_of(s: Seq<char>) -> Seq<char>;

/// The decimal digit for `d < 10`.
pub open spec fn digit(d: nat) -> char {
    seq!['0', '1', '2', '3', '4', '5', '6', '7', '8', '9'][d as int]
}

/// The decimal notation of `n`, without leading zeros.
pub open spec fn decimal(n: nat) -> Seq<char>
    decreases n,
{
    if n < 10 {
        seq![digit(n)]
    } else {
        decimal(n / 10).push(digit(n % 10))
    }
}

/// Relies on `serde_json::to_string` on a `&str`: it writes the string as a
/// JSON string literal, in which every control character, the line feed
/// among them, is escaped. Writing into memory cannot fail, so the error
/// branch is never taken.
#[verifier::external_body]
fn json_string(s: &str) -> (r: String)
    ensures
        r@ == json_string_of(s@),
        !r@.contains('\n'),
{
    serde_json::to_string(s).unwrap_or_default()
}

/// Relies on `serde_json::to_string` on a `u64`: it writes the number in
/// decimal (through `itoa`). Writing into memory cannot fail.
#[verifier::external_body]
fn json_number(n: u64) -> (r: String)
    ensures
        r@ == decimal(n as nat),
{
    serde_json::to_string(&n).unwrap_or_default()
}

/// The JSON record of a message, without the line terminator.
pub open spec fn record_of(m: MessageView) -> Seq<char> {
    match m {
        MessageView::CurrentStatus(s) => "{\"CurrentStatus\":"@ + json_string_of(s) + "}"@,
        MessageView::Progression(p) => "{\"Progression\":{\"max\":"@ + decimal(p.max as nat)
            + ",\"current\":"@ + decimal(p.current as nat) + "}}"@,
        MessageView::Event(EventView::Installing) => "{\"Event\":\"Installing\"}"@,
        MessageView::Event(EventView::Updating(s)) => "{\"Event\":{\"Updating\":"@
            + json_string_of(s) + "}}"@,
    }
}

/// The line written for a message: its record followed by a newline.
pub open spec fn line_of(m: MessageView) -> Seq<char> {
    record_of(m) + "\n"@
}

proof fn lemma_concat_lacks(a: Seq<char>, b: Seq<char>, c: char)
    requires
        !a.contains(c),
        !b.contains(c),
    ensures
        !(a + b).contains(c),
{
    assert forall|j: int| 0 <= j < (a + b).len() implies (a + b)[j] != c by {
        if j < a.len() {
            assert((a + b)[j] == a[j]);
        } else {
            assert((a + b)[j] == b[j - a.len()]);
        }
    }
}

proof fn lemma_decimal_one_line(n: nat)
    ensures
        !decimal(n).contains('\n'),
    decreases n,
{
    let digits = seq!['0', '1', '2', '3', '4', '5', '6', '7', '8', '9'];
    assert(!digits.contains('\n'));
    if n >= 10 {
        lemma_decimal_one_line(n / 10);
        assert(digits.contains(digit(n % 10)));
        lemma_concat_lacks(decimal(n / 10), seq![digit(n % 10)], '\n');
        assert(decimal(n / 10).push(digit(n % 10)) =~= decimal(n / 10) + seq![digit(n % 10)]);
    } else {
        assert(digits.contains(digit(n)));
    }
}

/// Renders `n` in decimal.
pub fn decimal_string(n: u64) -> (r: String)
    ensures
        r@ == decimal(n as nat),
{
    json_number(n)
}

/// The characters of a string literal hold no line feed.
proof fn lemma_literal_one_line(lit: &str)
    requires
        forall|j: int| 0 <= j < lit@.len() ==> lit@[j] != '\n',
    ensures
        !lit@.contains('\n'),
{
}

/// Encodes a message as one newline-terminated JSON record. The record itself
/// holds no line feed, so each message takes exactly one line.
pub fn encode_line(m: &Message) -> (r: String)
    ensures
        r@ == line_of(m@),
        r@.last() == '\n',
        !r@.drop_last().contains('\n'),
{
    let mut out = String::new();
    proof {
        assert(out@ =~= Seq::<char>::empty());
    }
    match m {
        Message::CurrentStatus(s) => {
            let open = "{\"CurrentStatus\":";
            let close = "}";
            out.append(open);
            let js = json_string(s.as_str());
            out.append(js.as_str());
            out.append(close);
            proof {
                reveal_strlit("{\"CurrentStatus\":");
                reveal_strlit("}");
                lemma_literal_one_line(open);
                lemma_literal_one_line(close);
                lemma_concat_lacks(open@, js@, '\n');
                lemma_concat_lacks(open@ + js@, close@, '\n');
            }
        },
        Message::Progression(p) => {
            let open = "{\"Progression\":{\"max\":";
            let middle = ",\"current\":";
            let close = "}}";
            out.append(open);
            let max = json_number(p.max);
            out.append(max.as_str());
            out.append(middle);
            let current = json_number(p.current);
            out.append(current.as_str());
            out.append(close);
            proof {
                reveal_strlit("{\"Progression\":{\"max\":");
                reveal_strlit(",\"current\":");
                reveal_strlit("}}");
                lemma_literal_one_line(open);
                lemma_literal_one_line(middle);
                lemma_literal_one_line(close);
                lemma_decimal_one_line(p.max as nat);
                lemma_decimal_one_line(p.current as nat);
                lemma_concat_lacks(open@, max@, '\n');
                lemma_concat_lacks(open@ + max@, middle@, '\n');
                lemma_concat_lacks(open@ + max@ + middle@, current@, '\n');
                lemma_concat_lacks(open@ + max@ + middle@ + current@, close@, '\n');
            }
        },
        Message::Event(Event::Installing) => {
            let whole = "{\"Event\":\"Installing\"}";
            out.append(whole);
            proof {
                reveal_strlit("{\"Event\":\"Installing\"}");
                lemma_literal_one_line(whole);
            }
        },
        Message::Event(Event::Updating(s)) => {
            let open = "{\"Event\":{\"Updating\":";
            let close = "}}";
            out.append(open);
            let js = json_string(s.as_str());
            out.append(js.as_str());
            out.append(close);
            proof {
                reveal_strlit("{\"Event\":{\"Updating\":");
                reveal_strlit("}}");
                lemma_literal_one_line(open);
                lemma_literal_one_line(close);
                lemma_concat_lacks(open@, js@, '\n');
                lemma_concat_lacks(open@ + js@, close@, '\n');
            }
        },
    }
    let ghost record = out@;
    out.append("\n");
    proof {
        reveal_strlit("\n");
        assert(out@.drop_last() =~= record);
        assert(out@ =~= line_of(m@));
    }
    out
}

} // verus!
