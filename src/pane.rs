//! The text a pane shows: one line per history record, each led by its index.

use vstd::prelude::*;
use vstd::string::StringExecFns;

use crate::session::texts;
use crate::text::{decimal, decimal_text};

verus! {

/// The display line of record `s` at index `n`: `[n]: s`.
pub open spec fn numbered_line(n: nat, s: Seq<char>) -> Seq<char> {
    seq!['['] + decimal(n) + seq![']', ':', ' '] + s
}

/// The display lines of history `h` when its first record has index `first`.
pub open spec fn numbered_lines(h: Seq<Seq<char>>, first: nat) -> Seq<Seq<char>> {
    Seq::new(h.len(), |i: int| numbered_line((first + i) as nat, h[i]))
}

/// The display lines of `records`, numbered from `first`, which is 0 or 1.
pub fn pane_lines(records: &Vec<String>, first: usize) -> (r: Vec<String>)
    requires
        first <= 1,
    ensures
        texts(r@) == numbered_lines(texts(records@), first as nat),
{
    let mut out: Vec<String> = Vec::new();
    let n = records.len();
    let mut i: usize = 0;
    while i < n
        invariant
            n == records@.len(),
            i <= n,
            first <= 1,
            texts(out@) == numbered_lines(texts(records@), first as nat).take(i as int),
        decreases records@.len() - i,
    {
        let mut line = String::from_str("[");
        let num = decimal_text(i + first);
        line.append(num.as_str());
        line.append("]: ");
        line.append(records[i].as_str());
        proof {
            reveal_strlit("[");
            reveal_strlit("]: ");
            assert(line@ =~= numbered_line((first + i) as nat, texts(records@)[i as int]));
        }
        let ghost before = out@;
        out.push(line);
        assert(texts(out@) =~= texts(before).push(line@));
        assert(texts(out@) =~= numbered_lines(texts(records@), first as nat).take(i + 1));
        i = i + 1;
    }
    assert(numbered_lines(texts(records@), first as nat).take(i as int) =~= numbered_lines(
        texts(records@),
        first as nat,
    ));
    out
}

} // verus!
