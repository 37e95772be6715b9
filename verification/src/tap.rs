//! Deterministic tap-device naming for the node agent.
//!
//! A managed tap device is named from the VM identifier and the index of the
//! network interface alone, so a caller can recompute the name without asking
//! the agent for state.

use vstd::prelude::*;

use crate::text::{
    decimal_rep, hex_digit, is_decimal_digit, is_hex_digit, is_upper_hex_digit, lemma_decimal_rep_digits,
    lemma_decimal_rep_len, push_char, push_decimal,
};

verus! {

/// The hexadecimal characters of `s`, in order.
pub open spec fn hex_digits_of(s: Seq<char>) -> Seq<char>
    decreases s.len(),
{
    if s.len() == 0 {
        Seq::empty()
    } else {
        let rest = hex_digits_of(s.drop_last());
        if is_hex_digit(s.last()) {
            rest.push(s.last())
        } else {
            rest
        }
    }
}

/// At most the first eight elements of a sequence.
pub open spec fn take8(s: Seq<char>) -> Seq<char> {
    if s.len() <= 8 {
        s
    } else {
        s.take(8)
    }
}

/// The name of the tap device for interface `idx` of the VM whose identifier
/// reads `id`: the manager's prefix, the first eight hexadecimal characters
/// of the identifier, then `n` and the interface index in decimal.
pub open spec fn tap_name_spec(id: Seq<char>, idx: nat) -> Seq<char> {
    "qt"@ + take8(hex_digits_of(id)) + "n"@ + decimal_rep(idx)
}

/// Whether a device name begins with the manager's tap prefix; only such
/// devices are adopted at recovery and deleted at teardown.
pub open spec fn has_tap_prefix(s: Seq<char>) -> bool {
    s.len() >= 2 && s[0] == 'q' && s[1] == 't'
}

/// Builds the deterministic tap device name for `(vm_id, net_index)`.
pub fn tap_name_for_net(vm_id: &str, net_index: usize) -> (r: String)
    ensures
        r@ == tap_name_spec(vm_id@, net_index as nat),
        has_tap_prefix(r@),
{
    proof {
        reveal_strlit("qt");
        reveal_strlit("n");
    }
    let mut s = String::from_str("qt");
    let n = vm_id.unicode_len();
    let mut i: usize = 0;
    let mut count: usize = 0;
    while i < n
        invariant
            0 <= i <= n,
            n == vm_id@.len(),
            count == take8(hex_digits_of(vm_id@.subrange(0, i as int))).len(),
            count <= 8,
            s@ == "qt"@ + take8(hex_digits_of(vm_id@.subrange(0, i as int))),
        decreases n - i,
    {
        let c = vm_id.get_char(i);
        proof {
            let pre = vm_id@.subrange(0, i as int);
            let ext = vm_id@.subrange(0, i + 1 as int);
            assert(ext.drop_last() =~= pre);
            assert(ext.last() == vm_id@[i as int]);
            if is_hex_digit(c) && hex_digits_of(pre).len() < 8 {
                assert(take8(hex_digits_of(ext)) =~= take8(hex_digits_of(pre)).push(c));
            } else {
                assert(take8(hex_digits_of(ext)) =~= take8(hex_digits_of(pre)));
            }
        }
        if count < 8 && hex_digit(c) {
            push_char(&mut s, c);
            count += 1;
        }
        i += 1;
    }
    assert(vm_id@.subrange(0, n as int) =~= vm_id@);
    push_char(&mut s, 'n');
    assert(s@ =~= "qt"@ + take8(hex_digits_of(vm_id@)) + "n"@);
    push_decimal(&mut s, net_index);
    s
}

/// All characters a managed tap name may hold: lower-case letters and digits.
pub open spec fn is_tap_char(c: char) -> bool {
    ('a' <= c && c <= 'z') || is_decimal_digit(c)
}

proof fn lemma_hex_digits_of_are_hex(s: Seq<char>)
    ensures
        forall|i: int|
            0 <= i < hex_digits_of(s).len() ==> is_hex_digit(#[trigger] hex_digits_of(s)[i]),
        forall|i: int|
            0 <= i < hex_digits_of(s).len() ==> exists|j: int|
                0 <= j < s.len() && #[trigger] hex_digits_of(s)[i] == s[j],
    decreases s.len(),
{
    if s.len() > 0 {
        lemma_hex_digits_of_are_hex(s.drop_last());
        assert forall|i: int|
            0 <= i < hex_digits_of(s).len() implies is_hex_digit(#[trigger] hex_digits_of(s)[i])
            && exists|j: int| 0 <= j < s.len() && hex_digits_of(s)[i] == s[j] by {
            let rest = hex_digits_of(s.drop_last());
            if i < rest.len() {
                assert(hex_digits_of(s)[i] == rest[i]);
                let j = choose|j: int| 0 <= j < s.drop_last().len() && rest[i] == s.drop_last()[j];
                assert(s.drop_last()[j] == s[j]);
                assert(0 <= j < s.len() && hex_digits_of(s)[i] == s[j]);
            } else {
                assert(hex_digits_of(s)[i] == s.last());
                assert(0 <= s.len() - 1 < s.len() && hex_digits_of(s)[i] == s[s.len() - 1]);
            }
        }
    }
}

/// The deterministic tap name stays within the fifteen characters the kernel
/// allows and uses lower-case letters and digits alone, for every identifier
/// without upper-case hexadecimal characters and every interface index up to
/// four decimal digits.
pub proof fn lemma_tap_name_bounds(id: Seq<char>, idx: nat)
    requires
        idx <= 9999,
        forall|i: int| 0 <= i < id.len() ==> !is_upper_hex_digit(#[trigger] id[i]),
    ensures
        tap_name_spec(id, idx).len() <= 15,
        forall|i: int|
            0 <= i < tap_name_spec(id, idx).len() ==> is_tap_char(#[trigger] tap_name_spec(id, idx)[i]),
{
    reveal_strlit("qt");
    reveal_strlit("n");
    lemma_decimal_rep_len(idx);
    lemma_decimal_rep_digits(idx);
    lemma_hex_digits_of_are_hex(id);
    let name = tap_name_spec(id, idx);
    let hex = take8(hex_digits_of(id));
    assert(hex.len() <= 8);
    assert(name.len() == 2 + hex.len() + 1 + decimal_rep(idx).len());
    assert forall|i: int| 0 <= i < name.len() implies is_tap_char(#[trigger] name[i]) by {
        let pre = "qt"@ + hex;
        let pren = pre + "n"@;
        if i < 2 {
            assert(name[i] == "qt"@[i]);
        } else if i < 2 + hex.len() {
            let k = i - 2;
            assert(name[i] == hex[k]);
            if hex_digits_of(id).len() <= 8 {
                assert(hex[k] == hex_digits_of(id)[k]);
            } else {
                assert(hex[k] == hex_digits_of(id)[k]);
            }
            let j = choose|j: int| 0 <= j < id.len() && hex_digits_of(id)[k] == id[j];
            assert(!is_upper_hex_digit(id[j]));
            assert(is_hex_digit(hex[k]));
        } else if i < 3 + hex.len() {
            assert(name[i] == 'n');
        } else {
            let k = i - 3 - hex.len();
            assert(name[i] == decimal_rep(idx)[k]);
        }
    }
}

} // verus!
