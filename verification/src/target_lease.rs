//! Who owns a download target.
//!
//! A target is owned by locking one file for each of its keys: its path, that
//! path in lower case where case is not told apart, its inode where it exists,
//! and the same of its progress record. All owners take
//! their locks in one order.

use vstd::prelude::*;
use vstd::string::*;

use crate::digest;
use crate::digest::{sha256_bytes, to_hex};
use crate::error::{IoErrorKind, IoFailure};
use crate::order;
use crate::text;
use crate::text::{push_decimal, to_chars};

verus! {

/// The values of a list of keys.
pub open spec fn key_bytes(keys: Seq<Vec<u8>>) -> Seq<Seq<u8>> {
    Seq::new(keys.len(), |i: int| keys[i]@)
}

/// ASCII text as bytes.
pub open spec fn ascii(text: Seq<char>) -> Seq<u8> {
    Seq::new(text.len(), |i: int| text[i] as u8)
}

/// The key of a path: the bytes of the path behind a mark.
pub open spec fn spec_path_key(path: Seq<u8>) -> Seq<u8> {
    ascii("path:"@) + path
}

/// The key of an inode: device and number behind a mark.
pub open spec fn spec_inode_key(dev: u64, ino: u64) -> Seq<u8> {
    ascii("inode:"@ + text::decimal(dev as nat) + ":"@ + text::decimal(ino as nat))
}

fn ascii_of(text: &str) -> (bytes: Vec<u8>)
    ensures
        bytes@ == ascii(text@),
{
    let chars = to_chars(text);
    let mut bytes: Vec<u8> = Vec::new();
    let mut i: usize = 0;
    while i < chars.len()
        invariant
            chars@ == text@,
            i <= chars@.len(),
            bytes@ == ascii(text@.take(i as int)),
        decreases chars@.len() - i,
    {
        bytes.push(chars[i] as u8);
        i += 1;
        assert(bytes@ =~= ascii(text@.take(i as int)));
    }
    assert(text@.take(i as int) =~= text@);
    bytes
}

/// The key of a path.
pub fn path_key(path: &[u8]) -> (key: Vec<u8>)
    ensures
        key@ == spec_path_key(path@),
{
    let mut key = ascii_of("path:");
    key.extend_from_slice(path);
    assert(key@ =~= spec_path_key(path@));
    key
}

/// The key of an inode.
pub fn inode_key(dev: u64, ino: u64) -> (key: Vec<u8>)
    ensures
        key@ == spec_inode_key(dev, ino),
{
    let mut text = "inode:".to_owned();
    push_decimal(&mut text, dev as u128);
    text.append(":");
    push_decimal(&mut text, ino as u128);
    ascii_of(text.as_str())
}

/// The key of a path on a volume that does not tell case apart: the bytes of
/// the lower-case path behind a mark of its own.
pub open spec fn spec_casefold_key(folded: Seq<u8>) -> Seq<u8> {
    ascii("path-casefold:"@) + folded
}

/// The keys of a path: the path itself, with everything resolved that exists
/// of it; its lower-case form, where volumes do not tell case apart; and the
/// inode that it names, if it names one.
pub open spec fn spec_lease_keys(
    canonical: Seq<u8>,
    folded: Option<Seq<u8>>,
    inode: Option<(u64, u64)>,
) -> Seq<Seq<u8>> {
    seq![spec_path_key(canonical)] + match folded {
        Some(folded) => seq![spec_casefold_key(folded)],
        None => Seq::empty(),
    } + match inode {
        Some((dev, ino)) => seq![spec_inode_key(dev, ino)],
        None => Seq::empty(),
    }
}

/// The value of a path that may be missing.
pub open spec fn optional_bytes(path: Option<Vec<u8>>) -> Option<Seq<u8>> {
    match path {
        Some(bytes) => Some(bytes@),
        None => None,
    }
}

pub fn lease_keys(
    canonical: &[u8],
    folded: Option<Vec<u8>>,
    inode: Option<(u64, u64)>,
) -> (keys: Vec<Vec<u8>>)
    ensures
        key_bytes(keys@) == spec_lease_keys(canonical@, optional_bytes(folded), inode),
{
    let ghost folded_bytes = optional_bytes(folded);
    let mut keys: Vec<Vec<u8>> = Vec::new();
    keys.push(path_key(canonical));
    if let Some(folded) = folded {
        let mut key = ascii_of("path-casefold:");
        key.extend_from_slice(folded.as_slice());
        assert(key@ =~= spec_casefold_key(folded@));
        keys.push(key);
    }
    if let Some((dev, ino)) = inode {
        keys.push(inode_key(dev, ino));
    }
    assert(key_bytes(keys@) =~= spec_lease_keys(canonical@, folded_bytes, inode));
    keys
}

// ---------------------------------------------------------------------------
// One order for all owners
// ---------------------------------------------------------------------------

/// How two keys stand to each other.
#[derive(Debug, Clone, Copy, PartialEq, Eq, Structural)]
pub enum KeyOrder {
    Before,
    Same,
    After,
}

fn key_order(a: &[u8], b: &[u8]) -> (order: KeyOrder)
    ensures
        match order {
            KeyOrder::Before => order::before(order::byte_less(), a@, b@),
            KeyOrder::Same => a@ == b@,
            KeyOrder::After => order::before(order::byte_less(), b@, a@),
        },
{
    let mut k: usize = 0;
    while k < a.len() && k < b.len() && a[k] == b[k]
        invariant
            k <= a@.len(),
            k <= b@.len(),
            forall|j: int| 0 <= j < k ==> a@[j] == b@[j],
        decreases a@.len() - k,
    {
        k += 1;
    }
    if k < b.len() && (k == a.len() || a[k] < b[k]) {
        assert(order::before_at(order::byte_less(), a@, b@, k as int));
        KeyOrder::Before
    } else if k < a.len() {
        assert(order::before_at(order::byte_less(), b@, a@, k as int));
        KeyOrder::After
    } else {
        assert(a@ =~= b@);
        KeyOrder::Same
    }
}

/// Puts a key where it belongs, unless it is there already.
fn insert_key(keys: &mut Vec<Vec<u8>>, key: Vec<u8>)
    requires
        order::in_order(order::byte_less(), key_bytes(old(keys)@)),
    ensures
        order::in_order(order::byte_less(), key_bytes(final(keys)@)),
        forall|k: Seq<u8>| #[trigger]
            key_bytes(final(keys)@).contains(k) <==> key_bytes(old(keys)@).contains(k) || k == key@,
{
    let ghost list = key_bytes(keys@);
    let mut i: usize = 0;
    while i < keys.len()
        invariant
            i <= keys@.len(),
            keys@ == old(keys)@,
            list == key_bytes(keys@),
            order::in_order(order::byte_less(), list),
            forall|j: int| 0 <= j < i ==> order::before(order::byte_less(), #[trigger] list[j], key@),
        decreases keys@.len() - i,
    {
        match key_order(keys[i].as_slice(), key.as_slice()) {
            KeyOrder::Before => {
                assert(list[i as int] == keys@[i as int]@);
            },
            KeyOrder::Same => {
                assert(list[i as int] == key@);
                return ;
            },
            KeyOrder::After => {
                proof {
                    assert(order::before(order::byte_less(), key@, list[i as int]));
                    order::lemma_insert_in_order(order::byte_less(), list, i as int, key@);
                }
                keys.insert(i, key);
                proof {
                    assert(key_bytes(keys@) =~= list.insert(i as int, key@));
                }
                return ;
            },
        }
        i += 1;
    }
    proof {
        order::lemma_insert_in_order(order::byte_less(), list, i as int, key@);
    }
    keys.push(key);
    proof {
        assert(key_bytes(keys@) =~= list.insert(i as int, key@));
    }
}

/// The keys of a target and of its progress record together, in the order in
/// which they are locked, each once.
pub fn ownership_keys(target: Vec<Vec<u8>>, sidecar: Vec<Vec<u8>>) -> (keys: Vec<Vec<u8>>)
    ensures
        order::in_order(order::byte_less(), key_bytes(keys@)),
        forall|k: Seq<u8>| #[trigger]
            key_bytes(keys@).contains(k) <==> key_bytes(target@).contains(k) || key_bytes(
                sidecar@,
            ).contains(k),
{
    let mut keys: Vec<Vec<u8>> = Vec::new();
    insert_all(&mut keys, target);
    insert_all(&mut keys, sidecar);
    keys
}

fn insert_all(keys: &mut Vec<Vec<u8>>, more: Vec<Vec<u8>>)
    requires
        order::in_order(order::byte_less(), key_bytes(old(keys)@)),
    ensures
        order::in_order(order::byte_less(), key_bytes(final(keys)@)),
        forall|k: Seq<u8>| #[trigger]
            key_bytes(final(keys)@).contains(k) <==> key_bytes(old(keys)@).contains(k) || key_bytes(
                more@,
            ).contains(k),
{
    let mut more = more;
    let ghost all = more@;
    while more.len() > 0
        invariant
            order::in_order(order::byte_less(), key_bytes(keys@)),
            forall|k: Seq<u8>| #[trigger]
                key_bytes(keys@).contains(k) || key_bytes(more@).contains(k) <==> key_bytes(
                    old(keys)@,
                ).contains(k) || key_bytes(all).contains(k),
        decreases more@.len(),
    {
        let ghost rest = more@;
        let key = more.remove(0);
        insert_key(keys, key);
        proof {
            assert forall|k: Seq<u8>|
                #[trigger] key_bytes(rest).contains(k) <==> key_bytes(more@).contains(k) || k
                    == key@ by {
                if key_bytes(rest).contains(k) {
                    let i = choose|i: int| 0 <= i < rest.len() && key_bytes(rest)[i] == k;
                    if i > 0 {
                        assert(key_bytes(more@)[i - 1] == k);
                    }
                }
                if key_bytes(more@).contains(k) {
                    let i = choose|i: int| 0 <= i < more@.len() && key_bytes(more@)[i] == k;
                    assert(key_bytes(rest)[i + 1] == k);
                }
                if k == key@ {
                    assert(key_bytes(rest)[0] == k);
                }
            }
        }
    }
}

/// The name of the file that is locked for a key.
pub fn lock_name(key: &[u8]) -> (name: String)
    ensures
        name@ == digest::hex(digest::sha256_digest(key@)) + ".lock"@,
{
    let digest = sha256_bytes(key);
    let mut name = to_hex(digest.as_slice());
    name.append(".lock");
    name
}

/// All owners take their locks in one order: where two lists of keys share two
/// keys, both have them the same way round. So no two owners can each hold what
/// the other one waits for.
pub proof fn law_owners_agree_on_the_order(a: Seq<Seq<u8>>, b: Seq<Seq<u8>>, i: int, j: int, k: int, l: int)
    requires
        order::in_order(order::byte_less(), a),
        order::in_order(order::byte_less(), b),
        0 <= i < j < a.len(),
        0 <= k < b.len(),
        0 <= l < b.len(),
        a[i] == b[k],
        a[j] == b[l],
    ensures
        k < l,
{
    assert(order::before(order::byte_less(), a[i], a[j]));
    order::lemma_before_is_strict(order::byte_less(), a[i], a[j]);
    if l < k {
        assert(order::before(order::byte_less(), b[l], b[k]));
    }
}

/// No key is locked twice by one owner.
pub proof fn law_keys_are_distinct(keys: Seq<Seq<u8>>)
    requires
        order::in_order(order::byte_less(), keys),
    ensures
        keys.no_duplicates(),
{
    assert forall|i: int, j: int| 0 <= i < keys.len() && 0 <= j < keys.len() && i != j implies keys[i]
        != keys[j] by {
        if i < j {
            order::lemma_before_is_strict(order::byte_less(), keys[i], keys[j]);
        } else {
            order::lemma_before_is_strict(order::byte_less(), keys[j], keys[i]);
        }
    }
}

/// Two names of one existing file contend for it, however they are spelled.
pub proof fn law_aliases_share_a_key(
    a: Seq<u8>,
    folded_a: Option<Seq<u8>>,
    b: Seq<u8>,
    folded_b: Option<Seq<u8>>,
    dev: u64,
    ino: u64,
)
    ensures
        exists|k: Seq<u8>|
            spec_lease_keys(a, folded_a, Some((dev, ino))).contains(k) && spec_lease_keys(
                b,
                folded_b,
                Some((dev, ino)),
            ).contains(k),
{
    let k = spec_inode_key(dev, ino);
    let of_a = spec_lease_keys(a, folded_a, Some((dev, ino)));
    let of_b = spec_lease_keys(b, folded_b, Some((dev, ino)));
    assert(of_a[of_a.len() - 1] == k);
    assert(of_b[of_b.len() - 1] == k);
    assert(of_a.contains(k) && of_b.contains(k));
}

/// Two names that differ in case alone contend where lower-case forms are
/// locked too, whether anything of that name exists or not.
pub proof fn law_case_aliases_share_a_key(
    a: Seq<u8>,
    b: Seq<u8>,
    folded: Seq<u8>,
    inode_a: Option<(u64, u64)>,
    inode_b: Option<(u64, u64)>,
)
    ensures
        exists|k: Seq<u8>|
            spec_lease_keys(a, Some(folded), inode_a).contains(k) && spec_lease_keys(
                b,
                Some(folded),
                inode_b,
            ).contains(k),
{
    let k = spec_casefold_key(folded);
    let of_a = spec_lease_keys(a, Some(folded), inode_a);
    let of_b = spec_lease_keys(b, Some(folded), inode_b);
    assert(of_a[1] == k);
    assert(of_b[1] == k);
    assert(of_a.contains(k) && of_b.contains(k));
}

/// `fs2::lock_contended_error` and `std::io::Error::raw_os_error`: the number by
/// which the operating system says that a lock is held by someone else. There
/// always is one; which one it is differs between systems, so that is left open.
#[verifier::external_body]
fn contended_os_error() -> (raw: Option<i32>)
    ensures
        raw is Some,
{
    fs2::lock_contended_error().raw_os_error()
}

/// Whether a lock is refused because someone else holds it.
pub open spec fn contended(failure: IoFailure, contended_raw: Option<i32>) -> bool {
    failure.kind == IoErrorKind::WouldBlock || failure.raw_os_error == contended_raw
}

/// A lock that someone else holds would block; every other failure stays what
/// it is. `contended_raw` is the system's number for a lock that is held.
pub fn lock_failure_given(failure: IoFailure, contended_raw: Option<i32>) -> (classified: IoFailure)
    ensures
        classified == if contended(failure, contended_raw) {
            IoFailure { kind: IoErrorKind::WouldBlock, raw_os_error: None }
        } else {
            failure
        },
{
    let same_number = match (failure.raw_os_error, contended_raw) {
        (Some(raw), Some(contended)) => raw == contended,
        (None, None) => true,
        _ => false,
    };
    if failure.kind == IoErrorKind::WouldBlock || same_number {
        IoFailure::new(IoErrorKind::WouldBlock)
    } else {
        failure
    }
}

/// Classifies a lock that could not be taken on this system: as someone else's
/// where the failure says so itself or carries the system's number for that. A
/// failure without a number is never taken for one.
pub fn lock_failure(failure: IoFailure) -> (classified: IoFailure)
    ensures
        exists|contended_raw: Option<i32>|
            contended_raw is Some && classified == if #[trigger] contended(
                failure,
                contended_raw,
            ) {
                IoFailure { kind: IoErrorKind::WouldBlock, raw_os_error: None }
            } else {
                failure
            },
        failure.kind == IoErrorKind::WouldBlock ==> classified == (IoFailure {
            kind: IoErrorKind::WouldBlock,
            raw_os_error: None,
        }),
        failure.kind != IoErrorKind::WouldBlock && failure.raw_os_error is None ==> classified
            == failure,
{
    let contended_raw = contended_os_error();
    lock_failure_given(failure, contended_raw)
}

// ---------------------------------------------------------------------------
// The reserved directory
// ---------------------------------------------------------------------------

/// Whether a path, given by its names, leads through a directory that is
/// reserved for progress records.
pub open spec fn passes_reserved(names: Seq<Seq<u8>>) -> bool {
    names.contains(ascii(".rusty-cat"@))
}

/// Refuses a target inside a reserved directory, whoever made that directory:
/// it could overwrite a progress record.
pub fn ensure_target_outside_sidecar_namespace(names: &Vec<Vec<u8>>) -> (result: Result<
    (),
    IoFailure,
>)
    ensures
        result is Ok <==> !passes_reserved(key_bytes(names@)),
        result is Err ==> result->Err_0 == (IoFailure {
            kind: IoErrorKind::InvalidInput,
            raw_os_error: None,
        }),
{
    let reserved = ascii_of(".rusty-cat");
    let ghost all = key_bytes(names@);
    let mut i: usize = 0;
    while i < names.len()
        invariant
            i <= names@.len(),
            all == key_bytes(names@),
            reserved@ == ascii(".rusty-cat"@),
            forall|j: int| 0 <= j < i ==> #[trigger] all[j] != reserved@,
        decreases names@.len() - i,
    {
        assert(all[i as int] == names@[i as int]@);
        match key_order(names[i].as_slice(), reserved.as_slice()) {
            KeyOrder::Same => {
                assert(all.contains(reserved@));
                return Err(IoFailure::new(IoErrorKind::InvalidInput));
            },
            KeyOrder::Before => {
                proof {
                    order::lemma_before_is_strict(order::byte_less(), all[i as int], reserved@);
                }
            },
            KeyOrder::After => {
                proof {
                    order::lemma_before_is_strict(order::byte_less(), reserved@, all[i as int]);
                }
            },
        }
        i += 1;
    }
    Ok(())
}

/// Where the progress record of a target lies: in the reserved directory beside
/// it, under a name that is made from the target's own.
pub open spec fn spec_sidecar_names(parent: Seq<Seq<u8>>, file_name: Seq<u8>) -> Seq<Seq<u8>> {
    parent + seq![
        ascii(".rusty-cat"@),
        ascii(digest::hex(digest::sha256_digest(file_name)) + ".rcdl"@),
    ]
}

/// The names of the path of a target's progress record; `parent` holds those of
/// the directory in which the target lies.
pub fn sidecar_names(parent: Vec<Vec<u8>>, file_name: &[u8]) -> (names: Vec<Vec<u8>>)
    ensures
        key_bytes(names@) == spec_sidecar_names(key_bytes(parent@), file_name@),
{
    let ghost directory = key_bytes(parent@);
    let digest = sha256_bytes(file_name);
    let mut name = to_hex(digest.as_slice());
    name.append(".rcdl");
    let mut names = parent;
    names.push(ascii_of(".rusty-cat"));
    names.push(ascii_of(name.as_str()));
    assert(key_bytes(names@) =~= spec_sidecar_names(directory, file_name@));
    names
}

/// No progress record can be chosen as a target, and two targets of one
/// directory have the same progress record only where the digests of their
/// names are the same.
pub proof fn law_progress_records_are_no_targets(
    parent: Seq<Seq<u8>>,
    file_name: Seq<u8>,
    other: Seq<u8>,
)
    ensures
        passes_reserved(spec_sidecar_names(parent, file_name)),
        spec_sidecar_names(parent, file_name) == spec_sidecar_names(parent, other)
            ==> digest::sha256_digest(file_name) == digest::sha256_digest(other),
{
    let names = spec_sidecar_names(parent, file_name);
    assert(names[parent.len() as int] == ascii(".rusty-cat"@));
    let x = digest::sha256_digest(file_name);
    let y = digest::sha256_digest(other);
    if names == spec_sidecar_names(parent, other) {
        let hx = ascii(digest::hex(x) + ".rcdl"@);
        let hy = ascii(digest::hex(y) + ".rcdl"@);
        assert(names[parent.len() as int + 1] == hx);
        assert(spec_sidecar_names(parent, other)[parent.len() as int + 1] == hy);
        assert(hx.len() == 2 * x.len() + ".rcdl"@.len());
        assert(hy.len() == 2 * y.len() + ".rcdl"@.len());
        assert forall|i: int| 0 <= i < x.len() implies x[i] == y[i] by {
            assert(hx[2 * i] == digest::hex_digit(x[i] as int / 16) as u8);
            assert(hy[2 * i] == digest::hex_digit(y[i] as int / 16) as u8);
            assert(hx[2 * i + 1] == digest::hex_digit(x[i] as int % 16) as u8);
            assert(hy[2 * i + 1] == digest::hex_digit(y[i] as int % 16) as u8);
        }
        assert(x =~= y);
    }
}

// ---------------------------------------------------------------------------
// Paths that do not exist yet
// ---------------------------------------------------------------------------

/// Resolves what exists of a path: from the end on, names that do not exist are
/// set aside until the rest can be resolved.
#[derive(Debug)]
pub struct LeasePathWalk {
    missing: Vec<Vec<u8>>,
}

/// The directory in which a path without a directory part lies.
pub open spec fn parent_or_here(parent: Option<Seq<u8>>) -> Seq<u8> {
    match parent {
        Some(parent) => if parent.len() > 0 {
            parent
        } else {
            ascii("."@)
        },
        None => ascii("."@),
    }
}

impl View for LeasePathWalk {
    type V = Seq<Seq<u8>>;

    /// The names set aside so far, the last one of the path first.
    closed spec fn view(&self) -> Seq<Seq<u8>> {
        key_bytes(self.missing@)
    }
}

impl LeasePathWalk {
    pub fn new() -> (walk: LeasePathWalk)
        ensures
            walk@ == Seq::<Seq<u8>>::empty(),
    {
        let walk = LeasePathWalk { missing: Vec::new() };
        assert(walk@ =~= Seq::empty());
        walk
    }

    /// What was to be resolved failed. A missing path is tried again without
    /// its last name, which is set aside; every other failure ends the walk, and
    /// so does a path without a last name. `name` and `parent` are the last
    /// name and the rest of the path that was tried.
    pub fn on_failure(
        &mut self,
        failure: IoFailure,
        name: Option<Vec<u8>>,
        parent: Option<Vec<u8>>,
    ) -> (next: Result<Vec<u8>, IoFailure>)
        ensures
            failure.kind != IoErrorKind::NotFound || name is None ==> next is Err && next->Err_0
                == failure && final(self)@ == old(self)@,
            failure.kind == IoErrorKind::NotFound && name is Some ==> next is Ok && next->Ok_0@
                == parent_or_here(
                match parent {
                    Some(parent) => Some(parent@),
                    None => None,
                },
            ) && final(self)@ == old(self)@.push(name->Some_0@),
    {
        match failure.kind {
            IoErrorKind::NotFound => {},
            _ => {
                return Err(failure);
            },
        }
        let name = match name {
            Some(name) => name,
            None => {
                return Err(failure);
            },
        };
        let ghost aside = self@;
        let ghost last = name@;
        self.missing.push(name);
        assert(self@ =~= aside.push(last));
        match parent {
            Some(parent) => {
                if parent.len() > 0 {
                    Ok(parent)
                } else {
                    Ok(ascii_of("."))
                }
            },
            None => Ok(ascii_of(".")),
        }
    }

    /// The names to append to what could be resolved, in the order of the path.
    pub fn into_components(self) -> (names: Vec<Vec<u8>>)
        ensures
            key_bytes(names@) == self@.reverse(),
    {
        let mut missing = self.missing;
        let mut names: Vec<Vec<u8>> = Vec::new();
        let ghost all = self.missing@;
        assert(key_bytes(names@) =~= key_bytes(all).skip(all.len() as int).reverse());
        while missing.len() > 0
            invariant
                missing@.len() <= all.len(),
                missing@ == all.take(missing@.len() as int),
                key_bytes(names@) == key_bytes(all).skip(missing@.len() as int).reverse(),
            decreases missing@.len(),
        {
            let ghost n = missing@.len() as int;
            let ghost so_far = key_bytes(names@);
            match missing.pop() {
                Some(name) => {
                    names.push(name);
                    proof {
                        assert(name == all[n - 1]);
                        assert(key_bytes(names@) =~= so_far.push(name@));
                        assert(key_bytes(all).skip(n - 1) =~= seq![key_bytes(all)[n - 1]]
                            + key_bytes(all).skip(n));
                        assert(key_bytes(names@) =~= key_bytes(all).skip(n - 1).reverse());
                        assert(missing@ =~= all.take(n - 1));
                    }
                },
                None => {},
            }
        }
        assert(key_bytes(all).skip(0) =~= key_bytes(all));
        names
    }
}

} // verus!
