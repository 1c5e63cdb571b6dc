//! The hardware id: a digest of the machine's network addresses.

use vstd::prelude::*;
use sha2::Digest;
use crate::screens::{law_ascii_id_is_showable, showable};

verus! {

/// The addresses of a list of adapters as sequences of bytes.
pub open spec fn addresses(macs: Seq<[u8; 6]>) -> Seq<Seq<u8>> {
    macs.map_values(|m: [u8; 6]| m@)
}

/// The address that stands for "no address".
pub open spec fn zero_address() -> Seq<u8> {
    seq![0u8, 0u8, 0u8, 0u8, 0u8, 0u8]
}

/// The addresses of a list that are real ones.
pub open spec fn real_addresses(macs: Seq<[u8; 6]>) -> Set<Seq<u8>> {
    addresses(macs).to_set().remove(zero_address())
}

/// The addresses that make up the id: the real ones that the machine lists,
/// or else its primary address, if that is real.
pub open spec fn id_addresses(listed: Seq<[u8; 6]>, primary: Option<[u8; 6]>) -> Set<Seq<u8>> {
    if real_addresses(listed) != Set::<Seq<u8>>::empty() {
        real_addresses(listed)
    } else {
        match primary {
            Some(m) => real_addresses(seq![m]),
            None => Set::empty(),
        }
    }
}

/// The order of byte arrays: the first byte in which they differ decides.
pub open spec fn precedes(a: Seq<u8>, b: Seq<u8>) -> bool {
    exists|i: int|
        0 <= i < 6 && #[trigger] a[i] < b[i] && (forall|j: int| 0 <= j < i ==> a[j] == b[j])
}

/// Every address comes before all that follow it; so none occurs twice.
pub open spec fn ascending(list: Seq<Seq<u8>>) -> bool {
    forall|i: int, j: int| 0 <= i < j < list.len() ==> precedes(#[trigger] list[i], #[trigger] list[j])
}

/// The members of a set of addresses in ascending order.
pub open spec fn in_order(set: Set<Seq<u8>>) -> Seq<Seq<u8>> {
    choose|list: Seq<Seq<u8>>| #[trigger] ascending(list) && list.to_set() == set
}

/// An address read as a number, its first byte the most significant.
spec fn number(a: Seq<u8>) -> int {
    ((((a[0] * 256 + a[1]) * 256 + a[2]) * 256 + a[3]) * 256 + a[4]) * 256 + a[5]
}

proof fn lemma_number_orders(a: Seq<u8>, b: Seq<u8>)
    requires
        a.len() == 6,
        b.len() == 6,
    ensures
        precedes(a, b) <==> number(a) < number(b),
        number(a) == number(b) ==> a == b,
        0 <= number(a) < 0x1_0000_0000_0000,
{
    if number(a) == number(b) {
        assert(a =~= b);
    }
    if number(a) < number(b) {
        if a[0] < b[0] {
        } else if a[1] < b[1] {
        } else if a[2] < b[2] {
        } else if a[3] < b[3] {
        } else if a[4] < b[4] {
        } else {
            assert(a[5] < b[5]);
        }
    }
}


/// Every member of a list is six bytes long.
pub open spec fn all_addresses(list: Seq<Seq<u8>>) -> bool {
    forall|i: int| 0 <= i < list.len() ==> (#[trigger] list[i]).len() == 6
}

/// Of the lists with the same members only one is in ascending order.
pub proof fn lemma_in_order_unique(a: Seq<Seq<u8>>, b: Seq<Seq<u8>>)
    requires
        all_addresses(a),
        ascending(a),
        ascending(b),
        a.to_set() == b.to_set(),
    ensures
        a == b,
    decreases a.len(),
{
    assert forall|i: int| 0 <= i < b.len() implies (#[trigger] b[i]).len() == 6 by {
        assert(b.to_set().contains(b[i]));
        assert(a.contains(b[i]));
    }
    if a.len() == 0 {
        if b.len() > 0 {
            assert(b.to_set().contains(b[0]));
        }
        assert(a =~= b);
    } else {
        let x = a.last();
        assert(a.to_set().contains(x));
        let k = choose|k: int| 0 <= k < b.len() && b[k] == x;
        let y = b.last();
        assert(b.to_set().contains(y));
        let l = choose|l: int| 0 <= l < a.len() && a[l] == y;
        lemma_number_orders(x, y);
        lemma_number_orders(y, x);
        assert(x == y) by {
            if x != y {
                assert(precedes(b[k], b[b.len() - 1]));
                assert(precedes(a[l], a[a.len() - 1]));
            }
        }
        lemma_last_apart(a);
        lemma_last_apart(b);
        lemma_in_order_unique(a.drop_last(), b.drop_last());
        assert(a =~= a.drop_last().push(x));
        assert(b =~= b.drop_last().push(y));
    }
}

proof fn lemma_last_apart(a: Seq<Seq<u8>>)
    requires
        all_addresses(a),
        ascending(a),
        a.len() > 0,
    ensures
        ascending(a.drop_last()),
        a.drop_last().to_set() == a.to_set().remove(a.last()),
{
    assert forall|i: int| 0 <= i < a.len() - 1 implies #[trigger] a[i] != a.last() by {
        lemma_number_orders(a[i], a.last());
        assert(precedes(a[i], a[a.len() - 1]));
    }
    let front = a.drop_last();
    assert forall|z: Seq<u8>| front.to_set().contains(z) <==> #[trigger] a.to_set().remove(
        a.last(),
    ).contains(z) by {
        if front.contains(z) {
            let i = choose|i: int| 0 <= i < front.len() && front[i] == z;
            assert(a[i] == z);
        }
        if a.contains(z) && z != a.last() {
            let i = choose|i: int| 0 <= i < a.len() && a[i] == z;
            assert(front[i] == z);
        }
    }
    assert(front.to_set() =~= a.to_set().remove(a.last()));
}

/// Distinct addresses are fewer than there are addresses.
proof fn lemma_ascending_is_short(a: Seq<Seq<u8>>)
    requires
        all_addresses(a),
        ascending(a),
    ensures
        a.len() <= 0x1_0000_0000_0000,
        a.len() > 0 ==> number(a.last()) >= a.len() - 1,
    decreases a.len(),
{
    if a.len() > 0 {
        lemma_last_apart(a);
        lemma_ascending_is_short(a.drop_last());
        lemma_number_orders(a.last(), a.last());
        if a.len() > 1 {
            lemma_number_orders(a[a.len() - 2], a[a.len() - 1]);
            assert(precedes(a[a.len() - 2], a[a.len() - 1]));
            assert(a.drop_last().last() == a[a.len() - 2]);
        }
    }
}

fn as_number(m: &[u8; 6]) -> (n: u64)
    ensures
        n == number(m@),
{
    proof {
        lemma_number_orders(m@, m@);
    }
    ((((m[0] as u64 * 256 + m[1] as u64) * 256 + m[2] as u64) * 256 + m[3] as u64) * 256
        + m[4] as u64) * 256 + m[5] as u64
}

fn is_real(m: &[u8; 6]) -> (b: bool)
    ensures
        b == (m@ != zero_address()),
{
    proof {
        lemma_number_orders(m@, zero_address());
    }
    as_number(m) != 0
}


/// Puts a real address at its place in an ascending list, unless it is there.
fn insert_in_order(macs: &mut Vec<[u8; 6]>, m: [u8; 6])
    requires
        ascending(addresses(old(macs)@)),
    ensures
        ascending(addresses(final(macs)@)),
        addresses(final(macs)@).to_set() == addresses(old(macs)@).to_set().insert(m@),
{
    let ghost before = addresses(macs@);
    let n: u64 = as_number(&m);
    let mut i: usize = 0;
    while i < macs.len() && as_number(&macs[i]) < n
        invariant
            i <= macs.len(),
            n == number(m@),
            before == addresses(macs@),
            forall|j: int| 0 <= j < i ==> number(#[trigger] before[j]) < n,
        decreases macs.len() - i,
    {
        i = i + 1;
    }
    if i < macs.len() && as_number(&macs[i]) == n {
        proof {
            lemma_number_orders(before[i as int], m@);
            assert(before.to_set() =~= before.to_set().insert(m@));
        }
        return ;
    }
    macs.insert(i, m);
    proof {
        let now = addresses(macs@);
        assert(now =~= before.insert(i as int, m@));
        assert forall|j: int, k: int| 0 <= j < k < now.len() implies precedes(
            #[trigger] now[j],
            #[trigger] now[k],
        ) by {
            lemma_number_orders(now[j], now[k]);
            if j < i && k == i {
                assert(number(before[j]) < n);
            } else if j == i {
                lemma_number_orders(before[i as int], before[k - 1]);
                if i < k - 1 {
                    assert(precedes(before[i as int], before[k - 1]));
                }
            } else {
                let p = if j < i { j } else { j - 1 };
                let q = if k < i { k } else { k - 1 };
                assert(precedes(before[p], before[q]));
            }
        }
        assert forall|z: Seq<u8>| now.to_set().contains(z) <==> #[trigger] before.to_set().insert(
            m@,
        ).contains(z) by {
            assert(now[i as int] == m@);
            if before.contains(z) {
                let j = choose|j: int| 0 <= j < before.len() && before[j] == z;
                assert(now[if j < i { j } else { j + 1 }] == z);
            }
            if now.contains(z) && z != m@ {
                let j = choose|j: int| 0 <= j < now.len() && now[j] == z;
                assert(before[if j < i { j } else { j - 1 }] == z);
            }
        }
        assert(now.to_set() =~= before.to_set().insert(m@));
    }
}

proof fn lemma_real_addresses_push(macs: Seq<[u8; 6]>, m: [u8; 6])
    ensures
        real_addresses(macs.push(m)) == if m@ == zero_address() {
            real_addresses(macs)
        } else {
            real_addresses(macs).insert(m@)
        },
{
    let one_more = addresses(macs).push(m@);
    assert(addresses(macs.push(m)) =~= one_more);
    assert forall|z: Seq<u8>| one_more.to_set().contains(z) <==> #[trigger] addresses(
        macs,
    ).to_set().insert(m@).contains(z) by {
        assert(one_more[macs.len() as int] == m@);
        if addresses(macs).contains(z) {
            let j = choose|j: int| 0 <= j < macs.len() && addresses(macs)[j] == z;
            assert(one_more[j] == z);
        }
        if one_more.contains(z) && z != m@ {
            let j = choose|j: int| 0 <= j < one_more.len() && one_more[j] == z;
            assert(addresses(macs)[j] == z);
        }
    }
    assert(one_more.to_set() =~= addresses(macs).to_set().insert(m@));
    if m@ == zero_address() {
        assert(real_addresses(macs.push(m)) =~= real_addresses(macs));
    } else {
        assert(real_addresses(macs.push(m)) =~= real_addresses(macs).insert(m@));
    }
}

/// Whether the machine's primary address has to be asked for, because it
/// lists no real one.
pub fn needs_primary(listed: &Vec<[u8; 6]>) -> (b: bool)
    ensures
        b == (real_addresses(listed@) == Set::<Seq<u8>>::empty()),
{
    let mut i: usize = 0;
    assert(real_addresses(listed@.take(0)) =~= Set::empty());
    while i < listed.len()
        invariant
            i <= listed.len(),
            real_addresses(listed@.take(i as int)) == Set::<Seq<u8>>::empty(),
        decreases listed.len() - i,
    {
        if is_real(&listed[i]) {
            proof {
                assert(addresses(listed@)[i as int] == listed@[i as int]@);
                assert(real_addresses(listed@).contains(listed@[i as int]@));
            }
            return false;
        }
        proof {
            lemma_real_addresses_push(listed@.take(i as int), listed@[i as int]);
            assert(listed@.take(i + 1) =~= listed@.take(i as int).push(listed@[i as int]));
        }
        i = i + 1;
    }
    assert(listed@.take(i as int) =~= listed@);
    true
}

/// The addresses that make up the id, each once, in ascending order.
pub fn collect_macs(listed: &Vec<[u8; 6]>, primary: Option<[u8; 6]>) -> (macs: Vec<[u8; 6]>)
    ensures
        ascending(addresses(macs@)),
        addresses(macs@).to_set() == id_addresses(listed@, primary),
        addresses(macs@) == in_order(id_addresses(listed@, primary)),
{
    let mut macs: Vec<[u8; 6]> = Vec::new();
    let mut i: usize = 0;
    assert(addresses(macs@).to_set() =~= real_addresses(listed@.take(0)));
    while i < listed.len()
        invariant
            i <= listed.len(),
            ascending(addresses(macs@)),
            addresses(macs@).to_set() == real_addresses(listed@.take(i as int)),
        decreases listed.len() - i,
    {
        if is_real(&listed[i]) {
            insert_in_order(&mut macs, listed[i]);
        }
        proof {
            lemma_real_addresses_push(listed@.take(i as int), listed@[i as int]);
            assert(listed@.take(i + 1) =~= listed@.take(i as int).push(listed@[i as int]));
        }
        i = i + 1;
    }
    assert(listed@.take(i as int) =~= listed@);
    proof {
        lemma_empty_list(addresses(macs@));
    }
    if macs.len() == 0 {
        if let Some(m) = primary {
            proof {
                lemma_real_addresses_push(Seq::empty(), m);
                assert(Seq::<[u8; 6]>::empty().push(m) =~= seq![m]);
                assert(real_addresses(Seq::empty()) =~= Set::empty());
            }
            if is_real(&m) {
                insert_in_order(&mut macs, m);
            }
        }
    }
    proof {
        let set = id_addresses(listed@, primary);
        let list = in_order(set);
        assert(ascending(addresses(macs@)) && addresses(macs@).to_set() == set);
        lemma_in_order_unique(addresses(macs@), list);
    }
    macs
}

proof fn lemma_empty_list(list: Seq<Seq<u8>>)
    ensures
        list.len() == 0 <==> list.to_set() == Set::<Seq<u8>>::empty(),
{
    if list.len() == 0 {
        assert(list.to_set() =~= Set::empty());
    } else {
        assert(list.to_set().contains(list[0]));
    }
}


/// The SHA-256 digest of some bytes, as `sha2::Sha256` computes it.
pub uninterp spec fn sha256_digest(data: Seq<u8>) -> Seq<u8>;

/// Calls `sha2::Sha256::digest`: a new hasher takes in `data` and is finished.
/// The digest depends on the bytes alone and is 32 bytes long. The hasher
/// counts the bits of its input in 64 bits, so the input stays below that.
#[verifier::external_body]
fn sha256(data: &Vec<u8>) -> (digest: Vec<u8>)
    requires
        data@.len() < 0x2000_0000_0000_0000,
    ensures
        digest@ == sha256_digest(data@),
        digest@.len() == 32,
{
    sha2::Sha256::digest(data.as_slice()).to_vec()
}

/// The lower-case hexadecimal digit of a number below sixteen.
pub open spec fn hex_digit(n: int) -> char {
    if n < 10 {
        (0x30 + n) as char
    } else {
        (0x61 + (n - 10)) as char
    }
}

/// Bytes in hexadecimal: two lower-case digits each, the high half first.
pub open spec fn hex_text(bytes: Seq<u8>) -> Seq<char> {
    Seq::new(
        2 * bytes.len(),
        |i: int|
            if i % 2 == 0 {
                hex_digit(bytes[i / 2] as int / 16)
            } else {
                hex_digit(bytes[i / 2] as int % 16)
            },
    )
}

/// Calls `hex::encode`, which writes each byte as two lower-case hexadecimal
/// digits, the high half first. The text has to fit in memory.
#[verifier::external_body]
fn hex_encode(bytes: &Vec<u8>) -> (text: String)
    requires
        2 * bytes@.len() <= isize::MAX,
    ensures
        text@ == hex_text(bytes@),
{
    hex::encode(bytes)
}

/// The id that a set of addresses gives: none without an address, otherwise
/// the digest of the addresses, one after the other in ascending order.
pub open spec fn id_of(set: Set<Seq<u8>>) -> Option<Seq<char>> {
    if set == Set::<Seq<u8>>::empty() {
        None
    } else {
        Some(hex_text(sha256_digest(in_order(set).flatten())))
    }
}

/// The bytes of all addresses, one after the other.
pub fn joined(macs: &Vec<[u8; 6]>) -> (bytes: Vec<u8>)
    ensures
        bytes@ == addresses(macs@).flatten(),
        bytes@.len() == 6 * macs@.len(),
{
    let mut bytes: Vec<u8> = Vec::new();
    let mut i: usize = 0;
    assert(addresses(macs@.take(0)) =~= Seq::empty());
    while i < macs.len()
        invariant
            i <= macs.len(),
            bytes@ == addresses(macs@.take(i as int)).flatten(),
            bytes@.len() == 6 * i,
        decreases macs.len() - i,
    {
        let m: [u8; 6] = macs[i];
        let ghost so_far = bytes@;
        bytes.push(m[0]);
        bytes.push(m[1]);
        bytes.push(m[2]);
        bytes.push(m[3]);
        bytes.push(m[4]);
        bytes.push(m[5]);
        proof {
            let front = addresses(macs@.take(i as int));
            front.lemma_flatten_push(m@);
            assert(addresses(macs@.take(i + 1)) =~= front.push(m@));
            assert(bytes@ =~= so_far + m@);
        }
        i = i + 1;
    }
    assert(macs@.take(i as int) =~= macs@);
    bytes
}

/// Writes a digest as an id.
pub fn id_text(digest: &Vec<u8>) -> (id: String)
    requires
        2 * digest@.len() <= isize::MAX,
    ensures
        id@ == hex_text(digest@),
        id@.len() == 2 * digest@.len(),
        vstd::utf8::is_ascii_chars(id@),
{
    hex_encode(digest)
}

/// The six bytes at position `k` of a row of addresses.
pub open spec fn nth_address(bytes: Seq<u8>, k: int) -> Seq<u8> {
    bytes.subrange(6 * k, 6 * k + 6)
}

/// The bytes are the addresses of a set and nothing else: six for every member,
/// each member in its place in ascending order.
pub open spec fn holds_all(bytes: Seq<u8>, set: Set<Seq<u8>>) -> bool {
    &&& bytes.len() == 6 * set.len()
    &&& forall|z: Seq<u8>| #[trigger]
        set.contains(z) ==> exists|k: int| 0 <= k < set.len() && z == #[trigger] nth_address(bytes, k)
    &&& forall|k: int|
        0 <= k < set.len() ==> set.contains(#[trigger] nth_address(bytes, k))
    &&& forall|k: int, l: int|
        0 <= k < l < set.len() ==> precedes(
            #[trigger] nth_address(bytes, k),
            #[trigger] nth_address(bytes, l),
        )
}

/// The hardware id of a machine with the given adapters, or `None` when no
/// real address is known. An id is the digest of every real address, six bytes
/// for each, in ascending order. It is long enough for the screens to show it.
pub fn generate(listed: &Vec<[u8; 6]>, primary: Option<[u8; 6]>) -> (id: Option<String>)
    ensures
        id is Some <==> id_of(id_addresses(listed@, primary)) is Some,
        id is None <==> id_addresses(listed@, primary) == Set::<Seq<u8>>::empty(),
        id matches Some(text) ==> {
            &&& Some(text@) == id_of(id_addresses(listed@, primary))
            &&& text@.len() == 64
            &&& vstd::utf8::is_ascii_chars(text@)
            &&& showable(text@)
            &&& exists|bytes: Seq<u8>|
                text@ == hex_text(#[trigger] sha256_digest(bytes)) && holds_all(
                    bytes,
                    id_addresses(listed@, primary),
                )
        },
{
    let macs = collect_macs(listed, primary);
    proof {
        lemma_empty_list(addresses(macs@));
        lemma_ascending_is_short(addresses(macs@));
    }
    if macs.len() == 0 {
        return None;
    }
    proof {
        lemma_row_holds_all(addresses(macs@));
    }
    let digest = sha256(&joined(&macs));
    let id = id_text(&digest);
    proof {
        law_ascii_id_is_showable(id@);
    }
    Some(id)
}

/// What stands for the id of a machine without one.
pub const UNKNOWN_ID: &'static str = "UNKNOWN";

/// The id, or a stand-in when there is none.
pub fn id_or_unknown(id: Option<String>) -> (shown: String)
    ensures
        shown@ == match id {
            Some(text) => text@,
            None => UNKNOWN_ID@,
        },
{
    match id {
        Some(text) => text,
        None => UNKNOWN_ID.to_owned(),
    }
}

/// The id does not depend on the order in which the machine lists its
/// adapters.
pub proof fn law_id_ignores_order(a: Seq<[u8; 6]>, b: Seq<[u8; 6]>, primary: Option<[u8; 6]>)
    requires
        a.to_multiset() == b.to_multiset(),
    ensures
        id_of(id_addresses(a, primary)) == id_of(id_addresses(b, primary)),
{
    assert forall|z: Seq<u8>| real_addresses(a).contains(z) implies #[trigger] real_addresses(
        b,
    ).contains(z) by {
        lemma_listed_in_both(a, b, z);
    }
    assert forall|z: Seq<u8>| real_addresses(b).contains(z) implies #[trigger] real_addresses(
        a,
    ).contains(z) by {
        lemma_listed_in_both(b, a, z);
    }
    assert(real_addresses(a) =~= real_addresses(b));
}

proof fn lemma_listed_in_both(a: Seq<[u8; 6]>, b: Seq<[u8; 6]>, z: Seq<u8>)
    requires
        a.to_multiset() == b.to_multiset(),
        addresses(a).to_set().contains(z),
    ensures
        addresses(b).to_set().contains(z),
{
    let i = choose|i: int| 0 <= i < a.len() && addresses(a)[i] == z;
    a.to_multiset_ensures();
    b.to_multiset_ensures();
    assert(a.contains(a[i]));
    assert(a.to_multiset().count(a[i]) > 0);
    assert(b.contains(a[i]));
    let j = choose|j: int| 0 <= j < b.len() && b[j] == a[i];
    assert(addresses(b)[j] == z);
}

/// An adapter that is listed again, or one without a real address, does not
/// change the id.
pub proof fn law_id_ignores_repeats_and_zeros(
    listed: Seq<[u8; 6]>,
    m: [u8; 6],
    primary: Option<[u8; 6]>,
)
    requires
        addresses(listed).contains(m@) || m@ == zero_address(),
    ensures
        id_of(id_addresses(listed.push(m), primary)) == id_of(id_addresses(listed, primary)),
{
    lemma_real_addresses_push(listed, m);
    if m@ != zero_address() {
        assert(real_addresses(listed).insert(m@) =~= real_addresses(listed));
    }
}

/// The primary address counts only where the machine lists no real one.
pub proof fn law_primary_is_a_fallback(
    listed: Seq<[u8; 6]>,
    p: Option<[u8; 6]>,
    q: Option<[u8; 6]>,
)
    requires
        real_addresses(listed) != Set::<Seq<u8>>::empty(),
    ensures
        id_of(id_addresses(listed, p)) == id_of(id_addresses(listed, q)),
        id_of(id_addresses(listed, p)) is Some,
{
}

proof fn lemma_row(list: Seq<Seq<u8>>, k: int)
    requires
        all_addresses(list),
    ensures
        list.flatten().len() == 6 * list.len(),
        0 <= k < list.len() ==> nth_address(list.flatten(), k) == list[k],
    decreases list.len(),
{
    if list.len() > 0 {
        let front = list.drop_last();
        lemma_row(front, k);
        front.lemma_flatten_push(list.last());
        assert(front.push(list.last()) =~= list);
        if 0 <= k < list.len() {
            assert(nth_address(list.flatten(), k) =~= list[k]) by {
                if k < front.len() {
                    assert(nth_address(list.flatten(), k) =~= nth_address(front.flatten(), k));
                }
            }
        }
    } else {
        assert(list =~= Seq::empty());
    }
}

proof fn lemma_row_holds_all(list: Seq<Seq<u8>>)
    requires
        all_addresses(list),
        ascending(list),
    ensures
        holds_all(list.flatten(), list.to_set()),
{
    let bytes = list.flatten();
    let set = list.to_set();
    assert(list.no_duplicates()) by {
        assert forall|i: int, j: int| 0 <= i < j < list.len() implies list[i] != list[j] by {
            lemma_number_orders(list[i], list[j]);
            assert(precedes(list[i], list[j]));
        }
    }
    list.unique_seq_to_set();
    lemma_row(list, 0);
    assert forall|z: Seq<u8>| #[trigger] set.contains(z) implies exists|k: int|
        0 <= k < set.len() && z == #[trigger] nth_address(bytes, k) by {
        let k = choose|k: int| 0 <= k < list.len() && list[k] == z;
        lemma_row(list, k);
        assert(nth_address(bytes, k) == z);
    }
    assert forall|k: int| 0 <= k < set.len() implies set.contains(
        #[trigger] nth_address(bytes, k),
    ) by {
        lemma_row(list, k);
        assert(list.contains(list[k]));
    }
    assert forall|k: int, l: int| 0 <= k < l < set.len() implies precedes(
        #[trigger] nth_address(bytes, k),
        #[trigger] nth_address(bytes, l),
    ) by {
        lemma_row(list, k);
        lemma_row(list, l);
        assert(precedes(list[k], list[l]));
    }
}

/// The place of a new address in an ascending list.
proof fn lemma_place(list: Seq<Seq<u8>>, x: Seq<u8>) -> (i: int)
    requires
        all_addresses(list),
        ascending(list),
        x.len() == 6,
        !list.contains(x),
    ensures
        0 <= i <= list.len(),
        forall|j: int| 0 <= j < i ==> number(#[trigger] list[j]) < number(x),
        forall|j: int| i <= j < list.len() ==> number(x) < number(#[trigger] list[j]),
    decreases list.len(),
{
    if list.len() == 0 {
        0
    } else {
        let n = list.len() - 1;
        assert(list.contains(list[n]));
        lemma_number_orders(list[n], x);
        if number(list[n]) < number(x) {
            assert forall|j: int| 0 <= j < list.len() implies number(#[trigger] list[j]) < number(
                x,
            ) by {
                if j < n {
                    lemma_number_orders(list[j], list[n]);
                    assert(precedes(list[j], list[n]));
                }
            }
            list.len() as int
        } else {
            let front = list.drop_last();
            assert(!front.contains(x)) by {
                if front.contains(x) {
                    let k = choose|k: int| 0 <= k < front.len() && front[k] == x;
                    assert(list[k] == x);
                }
            }
            lemma_last_apart(list);
            let i = lemma_place(front, x);
            assert forall|j: int| 0 <= j < i implies number(#[trigger] list[j]) < number(x) by {
                assert(front[j] == list[j]);
            }
            assert forall|j: int| i <= j < list.len() implies number(x) < number(
                #[trigger] list[j],
            ) by {
                if j < n {
                    assert(front[j] == list[j]);
                }
            }
            i
        }
    }
}

/// Every set of addresses, of whatever size, can be put in order.
pub proof fn lemma_in_order_exists(set: Set<Seq<u8>>)
    requires
        set.finite(),
        forall|z: Seq<u8>| #[trigger] set.contains(z) ==> z.len() == 6,
    ensures
        ascending(in_order(set)),
        in_order(set).to_set() == set,
        all_addresses(in_order(set)),
    decreases set.len(),
{
    if set.len() == 0 {
        let list = Seq::<Seq<u8>>::empty();
        assert(set =~= Set::empty()) by {
            set.lemma_len0_is_empty();
        }
        assert(list.to_set() =~= set);
        assert(ascending(list));
    } else {
        let x = set.choose();
        let rest = set.remove(x);
        lemma_in_order_exists(rest);
        let list = in_order(rest);
        assert(!list.contains(x)) by {
            assert(!list.to_set().contains(x));
        }
        let i = lemma_place(list, x);
        let more = list.insert(i, x);
        assert forall|j: int, k: int| 0 <= j < k < more.len() implies precedes(
            #[trigger] more[j],
            #[trigger] more[k],
        ) by {
            let p = if j < i { j } else { j - 1 };
            let q = if k < i { k } else { k - 1 };
            lemma_number_orders(more[j], more[k]);
            if j == i {
                assert(number(x) < number(list[q]));
            } else if k == i {
                assert(number(list[p]) < number(x));
            } else {
                assert(precedes(list[p], list[q]));
            }
        }
        assert forall|z: Seq<u8>| more.to_set().contains(z) <==> #[trigger] set.contains(z) by {
            assert(more[i] == x);
            if set.contains(z) && z != x {
                assert(list.to_set().contains(z));
                let j = choose|j: int| 0 <= j < list.len() && list[j] == z;
                assert(more[if j < i { j } else { j + 1 }] == z);
            }
            if more.contains(z) && z != x {
                let j = choose|j: int| 0 <= j < more.len() && more[j] == z;
                assert(list[if j < i { j } else { j - 1 }] == z);
                assert(list.to_set().contains(z));
            }
        }
        assert(more.to_set() =~= set);
        assert(ascending(more));
    }
    assert forall|i: int| 0 <= i < in_order(set).len() implies (
    #[trigger] in_order(set)[i]).len() == 6 by {
        assert(in_order(set).to_set().contains(in_order(set)[i]));
    }
}

/// Every address of a set, of whatever size, takes part in its id: what is
/// hashed is six bytes for each, in ascending order, and nothing else.
pub proof fn law_every_address_is_hashed(set: Set<Seq<u8>>)
    requires
        set.finite(),
        set.len() > 0,
        forall|z: Seq<u8>| #[trigger] set.contains(z) ==> z.len() == 6,
    ensures
        exists|bytes: Seq<u8>| #![trigger sha256_digest(bytes)]
            {
                &&& id_of(set) == Some(hex_text(sha256_digest(bytes)))
                &&& bytes.len() == 6 * set.len()
                &&& forall|z: Seq<u8>| #[trigger]
                    set.contains(z) ==> exists|k: int|
                        0 <= k < set.len() && z == #[trigger] nth_address(bytes, k)
                &&& forall|k: int, l: int|
                    0 <= k < l < set.len() ==> precedes(
                        #[trigger] nth_address(bytes, k),
                        #[trigger] nth_address(bytes, l),
                    )
            },
{
    lemma_in_order_exists(set);
    lemma_row_holds_all(in_order(set));
    let bytes = in_order(set).flatten();
    assert(set != Set::<Seq<u8>>::empty());
    assert(id_of(set) == Some(hex_text(sha256_digest(bytes))));
}

/// Two different sets of addresses never hash the same bytes.
pub proof fn law_different_addresses_hash_differently(
    a: Set<Seq<u8>>,
    b: Set<Seq<u8>>,
    bytes: Seq<u8>,
)
    requires
        holds_all(bytes, a),
        holds_all(bytes, b),
    ensures
        a == b,
{
    assert(a.len() == b.len());
    assert forall|z: Seq<u8>| #[trigger] a.contains(z) <==> b.contains(z) by {
        if a.contains(z) {
            let k = choose|k: int| 0 <= k < a.len() && z == #[trigger] nth_address(bytes, k);
            assert(b.contains(nth_address(bytes, k)));
        }
        if b.contains(z) {
            let k = choose|k: int| 0 <= k < b.len() && z == #[trigger] nth_address(bytes, k);
            assert(a.contains(nth_address(bytes, k)));
        }
    }
    assert(a =~= b);
}

/// The addresses that make up the id are all that the machine lists, except for
/// those without a byte other than zero; only where that leaves none, the primary
/// address takes their place, under the same condition.
pub proof fn law_which_addresses(listed: Seq<[u8; 6]>, primary: Option<[u8; 6]>, z: Seq<u8>)
    requires
        z.len() == 6,
    ensures
        id_addresses(listed, primary).contains(z) <==> {
            &&& z[0] != 0 || z[1] != 0 || z[2] != 0 || z[3] != 0 || z[4] != 0 || z[5] != 0
            &&& if exists|i: int|
                0 <= i < listed.len() && #[trigger] listed[i]@ != seq![0u8, 0, 0, 0, 0, 0] {
                exists|i: int| 0 <= i < listed.len() && #[trigger] listed[i]@ == z
            } else {
                primary is Some && primary->0@ == z
            }
        },
{
    let zero = seq![0u8, 0, 0, 0, 0, 0];
    assert(z == zero <==> z =~= zero);
    assert forall|y: Seq<u8>| addresses(listed).to_set().contains(y) <==> exists|i: int|
        0 <= i < listed.len() && #[trigger] listed[i]@ == y by {
        if addresses(listed).contains(y) {
            let i = choose|i: int| 0 <= i < listed.len() && addresses(listed)[i] == y;
            assert(listed[i]@ == y);
        }
        if exists|i: int| 0 <= i < listed.len() && #[trigger] listed[i]@ == y {
            let i = choose|i: int| 0 <= i < listed.len() && #[trigger] listed[i]@ == y;
            assert(addresses(listed)[i] == y);
        }
    }
    if exists|i: int| 0 <= i < listed.len() && #[trigger] listed[i]@ != zero {
        let i = choose|i: int| 0 <= i < listed.len() && #[trigger] listed[i]@ != zero;
        assert(addresses(listed).to_set().contains(listed[i]@));
        assert(real_addresses(listed).contains(listed[i]@));
    } else {
        assert(real_addresses(listed) =~= Set::empty()) by {
            assert forall|y: Seq<u8>| !(#[trigger] real_addresses(listed).contains(y)) by {
                if addresses(listed).to_set().contains(y) {
                    let i = choose|i: int| 0 <= i < listed.len() && #[trigger] listed[i]@ == y;
                    assert(listed[i]@ == zero);
                }
            }
        }
        if let Some(m) = primary {
            assert(addresses(seq![m]) =~= seq![m@]);
            assert(addresses(seq![m])[0] == m@);
            assert(addresses(seq![m]).to_set().contains(m@));
        }
    }
}

/// Addresses come in the order of the numbers that their bytes make up, the
/// first byte the most significant.
pub proof fn law_order_of_addresses(a: Seq<u8>, b: Seq<u8>)
    requires
        a.len() == 6,
        b.len() == 6,
    ensures
        precedes(a, b) <==> a[0] * 0x100_0000_0000 + a[1] * 0x1_0000_0000 + a[2] * 0x100_0000 + a[3]
            * 0x1_0000 + a[4] * 0x100 + a[5] < b[0] * 0x100_0000_0000 + b[1] * 0x1_0000_0000 + b[2]
            * 0x100_0000 + b[3] * 0x1_0000 + b[4] * 0x100 + b[5],
{
    lemma_number_orders(a, b);
}

/// The number that a hexadecimal digit stands for.
pub open spec fn hex_value(c: char) -> int {
    if '0' <= c <= '9' {
        c as int - '0' as int
    } else {
        c as int - 'a' as int + 10
    }
}

/// An id can be read back: every byte of the digest is its two lower-case
/// hexadecimal digits. So different digests give different ids.
pub proof fn law_id_reads_back(bytes: Seq<u8>, i: int)
    requires
        0 <= i < bytes.len(),
    ensures
        ({
            let text = hex_text(bytes);
            let high = text[2 * i];
            let low = text[2 * i + 1];
            &&& text.len() == 2 * bytes.len()
            &&& '0' <= high <= '9' || 'a' <= high <= 'f'
            &&& '0' <= low <= '9' || 'a' <= low <= 'f'
            &&& hex_value(high) * 16 + hex_value(low) == bytes[i]
        }),
{
}

/// There is no id exactly when there is no address.
pub proof fn law_no_address_no_id(set: Set<Seq<u8>>)
    ensures
        id_of(set) is None <==> forall|z: Seq<u8>| !(#[trigger] set.contains(z)),
{
    if forall|z: Seq<u8>| !(#[trigger] set.contains(z)) {
        assert(set =~= Set::empty());
    }
}

} // verus!
