//! The connection user data that carries a player's name from the client to
//! the server: the name's length as a little-endian `u64` in the first
//! eight bytes, then the name's bytes, then zeros. A name longer than the
//! room after the length is cut.

use vstd::prelude::*;

verus! {

/// The size of the user data of a connection.
pub const USER_DATA_BYTES: usize = 256;

/// The room for the name: what follows the eight length bytes.
pub const NAME_CAPACITY: usize = 248;

/// The value of bytes read as a little-endian number.
pub open spec fn le_value(b: Seq<u8>) -> nat
    decreases b.len(),
{
    if b.len() == 0 {
        0
    } else {
        b[0] as nat + 256 * le_value(b.drop_first())
    }
}

/// `256` to the power `n`.
pub open spec fn pow256(n: nat) -> nat
    decreases n,
{
    if n == 0 {
        1
    } else {
        256 * pow256((n - 1) as nat)
    }
}

/// The length of the name that user data announces: its first eight bytes
/// read as a little-endian `u64`, taken as a `usize`, capped at the room.
pub open spec fn announced_len(ud: Seq<u8>) -> int {
    let n = (le_value(ud.take(8)) as u64) as usize;
    if n < NAME_CAPACITY {
        n as int
    } else {
        NAME_CAPACITY as int
    }
}

/// The name bytes that user data carries.
pub open spec fn carried_name(ud: Seq<u8>) -> Seq<u8> {
    ud.subrange(8, 8 + announced_len(ud))
}

/// The length of `name` capped at the room.
pub open spec fn stored_len(name: Seq<u8>) -> int {
    if name.len() < NAME_CAPACITY {
        name.len() as int
    } else {
        NAME_CAPACITY as int
    }
}

/// The user data that carries `name`: the capped length in little-endian
/// order, the first bytes of the name, then zeros.
pub open spec fn encoded_user_data(name: Seq<u8>) -> Seq<u8> {
    let n = stored_len(name);
    Seq::new(
        USER_DATA_BYTES as nat,
        |i: int|
            if i == 0 {
                n as u8
            } else if i < 8 {
                0u8
            } else if i < 8 + n {
                name[i - 8]
            } else {
                0u8
            },
    )
}

/// Bytes read as a little-endian number are below `256` to the power of
/// their count.
pub proof fn lemma_le_value_bound(b: Seq<u8>)
    ensures
        le_value(b) < pow256(b.len()),
    decreases b.len(),
{
    if b.len() > 0 {
        lemma_le_value_bound(b.drop_first());
    }
}

/// Builds the user data that carries a player's name.
pub fn user_data_from_name(name: &[u8]) -> (ud: [u8; 256])
    ensures
        ud@ == encoded_user_data(name@),
{
    let len: usize = if name.len() < NAME_CAPACITY {
        name.len()
    } else {
        NAME_CAPACITY
    };
    let mut ud = [0u8; 256];
    // `len` is below 256, so its little-endian `u64` bytes are `len` and seven zeros.
    ud[0] = len as u8;
    let mut i: usize = 0;
    while i < len
        invariant
            len == stored_len(name@),
            i <= len <= NAME_CAPACITY,
            len <= name@.len(),
            forall|j: int| 0 <= j < 256 ==> ud@[j] == (if j == 0 {
                len as u8
            } else if 8 <= j < 8 + i {
                name@[j - 8]
            } else {
                0u8
            }),
        decreases len - i,
    {
        ud[8 + i] = name[i];
        i = i + 1;
    }
    assert(ud@ =~= encoded_user_data(name@));
    ud
}

/// The bytes of the name that user data carries.
pub fn name_bytes_from_user_data(ud: &[u8; 256]) -> (r: Vec<u8>)
    ensures
        r@ == carried_name(ud@),
{
    let mut v: u64 = 0;
    let mut k: usize = 8;
    while k > 0
        invariant
            k <= 8,
            ud@.len() == 256,
            v as nat == le_value(ud@.subrange(k as int, 8)),
            v < pow256((8 - k) as nat),
        decreases k,
    {
        k = k - 1;
        proof {
            assert(ud@.subrange(k as int, 8).drop_first() =~= ud@.subrange(k + 1, 8));
            assert(pow256((8 - k) as nat) == 256 * pow256((8 - k - 1) as nat));
            reveal_with_fuel(pow256, 9);
            assert(pow256((8 - k) as nat) <= pow256(8));
            assert(pow256(8) == 0x1_0000_0000_0000_0000);
            assert(v * 256 + ud@[k as int] < pow256((8 - k) as nat)) by (nonlinear_arith)
                requires
                    v < pow256((8 - k - 1) as nat),
                    ud@[k as int] < 256,
                    pow256((8 - k) as nat) == 256 * pow256((8 - k - 1) as nat),
            ;
        }
        v = v * 256 + ud[k] as u64;
    }
    assert(ud@.subrange(0, 8) =~= ud@.take(8));
    let n = v as usize;
    let len: usize = if n < NAME_CAPACITY {
        n
    } else {
        NAME_CAPACITY
    };
    let mut out: Vec<u8> = Vec::new();
    let mut i: usize = 0;
    while i < len
        invariant
            len == announced_len(ud@),
            len <= NAME_CAPACITY,
            i <= len,
            ud@.len() == 256,
            out@ == ud@.subrange(8, 8 + i),
        decreases len - i,
    {
        out.push(ud[8 + i]);
        assert(ud@.subrange(8, 8 + i + 1) =~= ud@.subrange(8, 8 + i).push(ud@[8 + i]));
        i = i + 1;
    }
    out
}

/// The player's name that user data carries: its name bytes decoded as
/// UTF-8, each invalid sequence replaced by U+FFFD.
pub fn name_from_user_data(ud: &[u8; 256]) -> (r: String)
    ensures
        r@ == crate::ext::utf8_lossy(carried_name(ud@)),
{
    let bytes = name_bytes_from_user_data(ud);
    crate::ext::lossy_string(bytes.as_slice())
}

/// The server reads back the name that the client wrote, cut to the room
/// after the length bytes.
pub proof fn lemma_user_data_roundtrip(name: Seq<u8>)
    ensures
        carried_name(encoded_user_data(name)) == name.take(stored_len(name)),
{
    let ud = encoded_user_data(name);
    let n = stored_len(name);
    let head = ud.take(8);
    reveal_with_fuel(le_value, 9);
    assert(head.drop_first() =~= seq![0u8, 0u8, 0u8, 0u8, 0u8, 0u8, 0u8]);
    assert(head[0] == n as u8);
    assert(le_value(head) == n);
    assert(announced_len(ud) == n);
    assert(carried_name(ud) =~= name.take(n));
}

} // verus!
