//! Text renderings of propagation records for logs: they name sizes and ids
//! and leave out payload and stamp bytes.
use vstd::prelude::*;
use crate::propagation::{StandardPropagationGetResult, StandardPropagationItem};
use crate::text::{concat, owned, string_from_chars};

verus! {

/// The decimal digit for `d` below 10.
pub open spec fn digit_char(d: int) -> char {
    (48 + d) as char
}

/// The decimal text of `n`, without leading zeros.
pub open spec fn dec_text(n: nat) -> Seq<char>
    decreases n,
{
    if n < 10 {
        seq![digit_char(n as int)]
    } else {
        dec_text(n / 10) + seq![digit_char((n % 10) as int)]
    }
}

/// The decimal text of `v`, with a leading `-` when negative.
pub open spec fn int_text(v: int) -> Seq<char> {
    if v < 0 {
        "-"@ + dec_text((-v) as nat)
    } else {
        dec_text(v as nat)
    }
}

/// The first `n` bytes of `b` in decimal, separated by `", "`.
pub open spec fn list_items_text(b: Seq<u8>, n: int) -> Seq<char>
    decreases n,
{
    if n <= 0 {
        Seq::empty()
    } else if n == 1 {
        dec_text(b[0] as nat)
    } else {
        list_items_text(b, n - 1) + ", "@ + dec_text(b[n - 1] as nat)
    }
}

/// A byte list as `[1, 2, 3]`.
pub open spec fn bytes_text(b: Seq<u8>) -> Seq<char> {
    "["@ + list_items_text(b, b.len() as int) + "]"@
}

/// The sum of the lengths of `ps`, saturating at `u64::MAX`.
pub open spec fn payload_total(ps: Seq<Vec<u8>>, n: int) -> u64
    decreases n,
{
    if n <= 0 {
        0
    } else {
        let before = payload_total(ps, n - 1);
        if before + ps[n - 1]@.len() > u64::MAX {
            u64::MAX
        } else {
            (before + ps[n - 1]@.len()) as u64
        }
    }
}

/// The text of an item: ids, sizes and times, with the payload given only
/// by its length and the stamp withheld.
pub open spec fn item_text(item: StandardPropagationItem) -> Seq<char> {
    "StandardPropagationItem { transient_id: "@ + bytes_text(item.transient_id@) + ", destination: "@
        + bytes_text(item.destination@) + ", lxmf_data_len: "@ + dec_text(item.lxmf_data@.len())
        + ", stamp: \"[REDACTED]\", stamp_value: "@ + dec_text(item.stamp_value as nat) + ", received_at: "@
        + int_text(item.received_at as int) + ", expires_at: "@ + int_text(item.expires_at as int)
        + ", stored_size: "@ + dec_text(item.stored_size as nat) + " }"@
}

/// The text of a download result: counts, the payloads' total size and the
/// attempt id, without payload bytes.
pub open spec fn get_result_text(res: StandardPropagationGetResult) -> Seq<char> {
    "StandardPropagationGetResult { inventory_count: "@ + match res.inventory {
        Some(ids) => "Some("@ + dec_text(ids@.len()) + ")"@,
        None => "None"@,
    } + ", payload_count: "@ + dec_text(res.payloads@.len()) + ", payload_bytes: "@ + dec_text(
        payload_total(res.payloads@, res.payloads@.len() as int) as nat,
    ) + ", attempt_id: "@ + bytes_text(res.attempt_id@) + " }"@
}

/// `dec_text` computed.
pub fn nat_text(n: u64) -> (r: String)
    ensures
        r@ == dec_text(n as nat),
    decreases n,
{
    let d: u8 = (n % 10) as u8;
    let c: char = (48u8 + d) as char;
    let v = vec![c];
    let last = string_from_chars(v.as_slice());
    assert(last@ =~= seq![digit_char((n % 10) as int)]);
    if n < 10 {
        last
    } else {
        let head = nat_text(n / 10);
        concat(head.as_str(), last.as_str())
    }
}

/// `int_text` computed.
pub fn i64_text(v: i64) -> (r: String)
    ensures
        r@ == int_text(v as int),
{
    if v < 0 {
        let m: u64 = (0i128 - v as i128) as u64;
        let t = nat_text(m);
        concat("-", t.as_str())
    } else {
        nat_text(v as u64)
    }
}

/// `bytes_text` computed.
pub fn bytes_list_text(b: &[u8]) -> (r: String)
    ensures
        r@ == bytes_text(b@),
{
    let mut out = owned("[");
    let mut i: usize = 0;
    while i < b.len()
        invariant
            i <= b@.len(),
            out@ == "["@ + list_items_text(b@, i as int),
        decreases b.len() - i,
    {
        let t = nat_text(b[i] as u64);
        if i > 0 {
            let sep = concat(out.as_str(), ", ");
            out = concat(sep.as_str(), t.as_str());
            assert(out@ =~= "["@ + list_items_text(b@, i + 1));
        } else {
            out = concat(out.as_str(), t.as_str());
            assert(out@ =~= "["@ + list_items_text(b@, i + 1));
        }
        i = i + 1;
    }
    concat(out.as_str(), "]")
}

/// Appends `b` to `a`.
fn append(a: String, b: &str) -> (r: String)
    ensures
        r@ == a@ + b@,
{
    concat(a.as_str(), b)
}

impl StandardPropagationItem {
    /// A text of the item for logs: ids, sizes and times; the payload only
    /// by its length, the stamp withheld.
    pub fn redacted_text(&self) -> (r: String)
        ensures
            r@ == item_text(*self),
    {
        let mut s = owned("StandardPropagationItem { transient_id: ");
        s = append(s, bytes_list_text(&self.transient_id).as_str());
        s = append(s, ", destination: ");
        s = append(s, bytes_list_text(&self.destination).as_str());
        s = append(s, ", lxmf_data_len: ");
        s = append(s, nat_text(self.lxmf_data.len() as u64).as_str());
        s = append(s, ", stamp: \"[REDACTED]\", stamp_value: ");
        s = append(s, nat_text(self.stamp_value as u64).as_str());
        s = append(s, ", received_at: ");
        s = append(s, i64_text(self.received_at).as_str());
        s = append(s, ", expires_at: ");
        s = append(s, i64_text(self.expires_at).as_str());
        s = append(s, ", stored_size: ");
        s = append(s, nat_text(self.stored_size as u64).as_str());
        s = append(s, " }");
        s
    }
}

impl StandardPropagationGetResult {
    /// A text of the result for logs: inventory and payload counts, the
    /// payloads' total size and the attempt id, without payload bytes.
    pub fn redacted_text(&self) -> (r: String)
        ensures
            r@ == get_result_text(*self),
    {
        let mut s = owned("StandardPropagationGetResult { inventory_count: ");
        match &self.inventory {
            Some(ids) => {
                s = append(s, "Some(");
                s = append(s, nat_text(ids.len() as u64).as_str());
                s = append(s, ")");
            },
            None => {
                s = append(s, "None");
            },
        }
        s = append(s, ", payload_count: ");
        s = append(s, nat_text(self.payloads.len() as u64).as_str());
        let mut total: u64 = 0;
        let mut k: usize = 0;
        while k < self.payloads.len()
            invariant
                k <= self.payloads@.len(),
                total == payload_total(self.payloads@, k as int),
            decreases self.payloads.len() - k,
        {
            total = total.saturating_add(self.payloads[k].len() as u64);
            k = k + 1;
        }
        s = append(s, ", payload_bytes: ");
        s = append(s, nat_text(total).as_str());
        s = append(s, ", attempt_id: ");
        s = append(s, bytes_list_text(&self.attempt_id).as_str());
        s = append(s, " }");
        s
    }
}

} // verus!
