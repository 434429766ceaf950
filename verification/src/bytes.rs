//! Numbers that are written as bytes.
use vstd::prelude::*;

verus! {

/// The number that bytes encode, the lowest byte first.
pub open spec fn little_endian(bytes: Seq<u8>) -> nat
    decreases bytes.len(),
{
    if bytes.len() == 0 {
        0
    } else {
        bytes[0] as nat + 256 * little_endian(bytes.drop_first())
    }
}

/// How many numbers so many bytes have room for.
pub open spec fn room(bytes: nat) -> nat
    decreases bytes,
{
    if bytes == 0 {
        1
    } else {
        256 * room((bytes - 1) as nat)
    }
}

/// The number that bytes encode is one that they have room for.
pub proof fn lemma_little_endian_bound(bytes: Seq<u8>)
    ensures
        little_endian(bytes) < room(bytes.len()),
    decreases bytes.len(),
{
    if bytes.len() > 0 {
        lemma_little_endian_bound(bytes.drop_first());
    }
}

/// The highest byte counts as often as the other bytes have room for numbers.
pub proof fn lemma_highest_byte(bytes: Seq<u8>)
    requires
        bytes.len() > 0,
    ensures
        little_endian(bytes) == little_endian(bytes.drop_last()) + bytes.last() * room(
            (bytes.len() - 1) as nat,
        ),
    decreases bytes.len(),
{
    let n = bytes.len();
    if n == 1 {
        assert(bytes.drop_first().len() == 0);
        assert(bytes.drop_last().len() == 0);
        assert(little_endian(bytes.drop_first()) == 0);
        let one = room(0) as int;
        assert(bytes.last() * one == bytes.last()) by (nonlinear_arith)
            requires
                one == 1,
        ;
    } else {
        let rest = bytes.drop_first();
        lemma_highest_byte(rest);
        assert(rest.drop_last() =~= bytes.drop_last().drop_first());
        assert(rest.last() == bytes.last());
        let top = bytes.last() as int;
        let r = room((n - 2) as nat) as int;
        assert(256 * (top * r) == top * (256 * r)) by (nonlinear_arith);
        assert(bytes.drop_last()[0] == bytes[0]);
    }
}

/// More bytes have more room.
pub proof fn lemma_room_grows(fewer: nat, more: nat)
    requires
        fewer <= more,
    ensures
        room(fewer) <= room(more),
    decreases more,
{
    if fewer < more {
        lemma_room_grows(fewer, (more - 1) as nat);
    }
}

/// A byte has room for 256 numbers, and bytes together for the product of what they
/// have room for apart.
pub proof fn law_room_multiplies(a: nat, b: nat)
    ensures
        room(1) == 256,
        room(a + b) == room(a) * room(b),
    decreases a,
{
    assert(room(1) == 256 * room(0));
    let y = room(b) as int;
    if a > 0 {
        law_room_multiplies((a - 1) as nat, b);
        assert((a + b - 1) as nat == (a - 1) as nat + b);
        let x = room((a - 1) as nat) as int;
        assert(256 * (x * y) == (256 * x) * y) by (nonlinear_arith);
    } else {
        assert(1 * y == y) by (nonlinear_arith);
    }
}

/// One byte encodes itself, and bytes behind others count as often as those have
/// room for numbers.
pub proof fn law_later_bytes_count_more(a: Seq<u8>, b: Seq<u8>, byte: u8)
    ensures
        little_endian(seq![byte]) == byte,
        little_endian(a + b) == little_endian(a) + room(a.len()) * little_endian(b),
    decreases a.len(),
{
    assert(seq![byte].drop_first() =~= Seq::empty());
    assert(little_endian(seq![byte].drop_first()) == 0);
    let y = little_endian(b) as int;
    if a.len() > 0 {
        law_later_bytes_count_more(a.drop_first(), b, byte);
        assert((a + b).drop_first() =~= a.drop_first() + b);
        let x = room((a.len() - 1) as nat) as int;
        assert(256 * (x * y) == (256 * x) * y) by (nonlinear_arith);
    } else {
        assert(a + b =~= b);
        assert(1 * y == y) by (nonlinear_arith);
    }
}

} // verus!
