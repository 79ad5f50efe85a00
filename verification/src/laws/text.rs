//! Numbers as text.

use vstd::prelude::*;

use crate::text::decimal;

verus! {

/// The number that decimal digits stand for.
pub open spec fn read_decimal(text: Seq<char>) -> int
    decreases text.len(),
{
    if text.len() == 0 {
        0
    } else {
        10 * read_decimal(text.drop_last()) + (text.last() as int - '0' as int)
    }
}

/// A number that was written can be read back: it is written in digits, at
/// least one, and without leading zeros.
pub proof fn what_is_written_can_be_read(n: nat, i: int)
    ensures
        read_decimal(decimal(n)) == n,
        decimal(n).len() > 0,
        0 <= i < decimal(n).len() ==> '0' <= decimal(n)[i] <= '9',
        decimal(n).len() > 1 ==> decimal(n)[0] != '0',
    decreases n,
{
    let text = decimal(n);
    if n < 10 {
        assert(text.drop_last() =~= seq![]);
        assert(text.last() as int == 48 + n);
        assert(read_decimal(text.drop_last()) == 0);
    } else {
        let rest = decimal(n / 10);
        what_is_written_can_be_read(n / 10, i);
        what_is_written_can_be_read(n / 10, 0);
        assert(text.drop_last() =~= rest);
        assert(text.last() as int == 48 + n % 10);
        assert(text[0] == rest[0]);
        if rest.len() == 1 {
            assert(rest.drop_last() =~= seq![]);
            assert(read_decimal(rest.drop_last()) == 0);
        }
        if 0 <= i < rest.len() {
            assert(text[i] == rest[i]);
        }
    }
}

} // verus!
