//! Content-addressed blob identities and the generic blob-read authority.
use vstd::prelude::*;

use crate::digest::{sha256, sha256_digest};
use crate::errors::PersistenceError;
use crate::text::{begins_with, chars_of, decimal, has_prefix, push_decimal, text_eq};

verus! {

/// The capability that authorizes generic blob reads. Browser services may
/// reference a blob, but cannot reinterpret their own metadata capability as
/// a byte-read grant.
pub const BLOB_READ_CAPABILITY: &'static str = "blob.read";

/// The prefix of every blob identity.
pub open spec fn blob_id_prefix() -> Seq<char> {
    "sha256-v1-"@
}

/// The lowercase hexadecimal digit of `d` (below 16).
pub open spec fn hex_digit(d: nat) -> char {
    if d < 10 {
        ('0' as u32 + d) as char
    } else {
        ('a' as u32 + (d - 10)) as char
    }
}

/// Whether `c` is a lowercase hexadecimal digit.
pub open spec fn is_lower_hex(c: char) -> bool {
    ('0' <= c && c <= '9') || ('a' <= c && c <= 'f')
}

/// The lowercase hexadecimal text of `bytes`, two digits per byte.
pub open spec fn hex_of(bytes: Seq<u8>) -> Seq<char>
    decreases bytes.len(),
{
    if bytes.len() == 0 {
        seq![]
    } else {
        hex_of(bytes.drop_last()) + seq![
            hex_digit((bytes.last() / 16) as nat),
            hex_digit((bytes.last() % 16) as nat),
        ]
    }
}

/// The identity of content with SHA-256 digest `digest`.
pub open spec fn blob_id_text(digest: Seq<u8>) -> Seq<char> {
    blob_id_prefix() + hex_of(digest)
}

/// The identity of `content`.
pub open spec fn content_id(content: Seq<u8>) -> Seq<char> {
    blob_id_text(sha256(content))
}

/// Whether `s` is a well-formed blob identity: the prefix followed by the
/// 64 lowercase hexadecimal digits of a SHA-256 digest.
pub open spec fn valid_blob_id(s: Seq<char>) -> bool {
    &&& s.len() == 74
    &&& begins_with(s, blob_id_prefix())
    &&& forall|i: int| 10 <= i < 74 ==> #[trigger] is_lower_hex(s[i])
}

proof fn lemma_hex_of(bytes: Seq<u8>)
    ensures
        hex_of(bytes).len() == 2 * bytes.len(),
        forall|i: int| 0 <= i < hex_of(bytes).len() ==> #[trigger] is_lower_hex(hex_of(bytes)[i]),
    decreases bytes.len(),
{
    if bytes.len() > 0 {
        lemma_hex_of(bytes.drop_last());
        let d1 = (bytes.last() / 16) as nat;
        let d2 = (bytes.last() % 16) as nat;
        assert(is_lower_hex(hex_digit(d1)));
        assert(is_lower_hex(hex_digit(d2)));
    }
}

/// Every content identity is a well-formed blob identity.
pub proof fn lemma_blob_id_text_valid(digest: Seq<u8>)
    requires
        digest.len() == 32,
    ensures
        valid_blob_id(blob_id_text(digest)),
{
    reveal_strlit("sha256-v1-");
    lemma_hex_of(digest);
    let s = blob_id_text(digest);
    assert(s.subrange(0, 10) =~= blob_id_prefix());
    assert forall|i: int| 10 <= i < 74 implies #[trigger] is_lower_hex(s[i]) by {
        assert(s[i] == hex_of(digest)[i - 10]);
    }
}

fn hex_digit_str(d: u8) -> (s: &'static str)
    requires
        d < 16,
    ensures
        s@ == seq![hex_digit(d as nat)],
{
    proof {
        reveal_strlit("0");
        reveal_strlit("1");
        reveal_strlit("2");
        reveal_strlit("3");
        reveal_strlit("4");
        reveal_strlit("5");
        reveal_strlit("6");
        reveal_strlit("7");
        reveal_strlit("8");
        reveal_strlit("9");
        reveal_strlit("a");
        reveal_strlit("b");
        reveal_strlit("c");
        reveal_strlit("d");
        reveal_strlit("e");
        reveal_strlit("f");
    }
    if d == 0 {
        "0"
    } else if d == 1 {
        "1"
    } else if d == 2 {
        "2"
    } else if d == 3 {
        "3"
    } else if d == 4 {
        "4"
    } else if d == 5 {
        "5"
    } else if d == 6 {
        "6"
    } else if d == 7 {
        "7"
    } else if d == 8 {
        "8"
    } else if d == 9 {
        "9"
    } else if d == 10 {
        "a"
    } else if d == 11 {
        "b"
    } else if d == 12 {
        "c"
    } else if d == 13 {
        "d"
    } else if d == 14 {
        "e"
    } else {
        "f"
    }
}

/// The blob identity of content whose SHA-256 digest is `digest`.
pub fn blob_id_for_digest(digest: &[u8]) -> (s: String)
    ensures
        s@ == blob_id_text(digest@),
{
    let mut s = String::from_str("sha256-v1-");
    let mut i: usize = 0;
    while i < digest.len()
        invariant
            i <= digest@.len(),
            s@ == blob_id_prefix() + hex_of(digest@.subrange(0, i as int)),
        decreases digest.len() - i,
    {
        let b = digest[i];
        s.append(hex_digit_str(b / 16));
        s.append(hex_digit_str(b % 16));
        proof {
            let next = digest@.subrange(0, i + 1);
            assert(next.drop_last() =~= digest@.subrange(0, i as int));
            assert(next.last() == b);
        }
        i += 1;
        assert(s@ =~= blob_id_prefix() + hex_of(digest@.subrange(0, i as int)));
    }
    assert(digest@.subrange(0, digest@.len() as int) =~= digest@);
    s
}

/// Why `value` is refused as a blob identity.
pub open spec fn invalid_blob_id_text(value: Seq<char>) -> Seq<char> {
    "blob id '"@ + value + "' is not 'sha256-v1-' followed by 64 lowercase hex digits"@
}

/// A content-addressed blob identity.
#[derive(Debug, PartialEq, Eq)]
pub struct BlobId {
    value: String,
}

impl View for BlobId {
    type V = Seq<char>;

    closed spec fn view(&self) -> Seq<char> {
        self.value@
    }
}

impl Clone for BlobId {
    fn clone(&self) -> (c: Self)
        ensures
            c@ == self@,
    {
        proof {
            use_type_invariant(self);
        }
        BlobId { value: self.value.clone() }
    }
}

impl BlobId {
    #[verifier::type_invariant]
    closed spec fn well_formed(self) -> bool {
        valid_blob_id(self.value@)
    }

    /// Parses a blob identity; fails unless `value` is the identity prefix
    /// followed by 64 lowercase hexadecimal digits.
    pub fn new(value: String) -> (r: Result<BlobId, String>)
        ensures
            r is Ok <==> valid_blob_id(value@),
            r matches Ok(id) ==> id@ == value@,
            r matches Err(m) ==> m@ == invalid_blob_id_text(value@),
    {
        let chars = chars_of(value.as_str());
        if chars.len() != 74 || !has_prefix(value.as_str(), "sha256-v1-") {
            let mut m = String::from_str("blob id '");
            m.append(value.as_str());
            m.append("' is not 'sha256-v1-' followed by 64 lowercase hex digits");
            return Err(m);
        }
        let mut i: usize = 10;
        while i < 74
            invariant
                chars@ == value@,
                chars@.len() == 74,
                10 <= i <= 74,
                forall|j: int| 10 <= j < i ==> #[trigger] is_lower_hex(chars@[j]),
            decreases 74 - i,
        {
            let c = chars[i];
            if !(('0' <= c && c <= '9') || ('a' <= c && c <= 'f')) {
                assert(!is_lower_hex(chars@[i as int]));
                let mut m = String::from_str("blob id '");
                m.append(value.as_str());
                m.append("' is not 'sha256-v1-' followed by 64 lowercase hex digits");
                return Err(m);
            }
            i += 1;
        }
        Ok(BlobId { value })
    }

    /// The identity's text.
    pub fn as_str(&self) -> (s: &str)
        ensures
            s@ == self@,
            valid_blob_id(s@),
    {
        proof {
            use_type_invariant(self);
        }
        self.value.as_str()
    }
}

/// The blob identity of `bytes`: the SHA-256 digest in lowercase hex after
/// the identity prefix. Always well formed.
pub fn digest_id(bytes: &[u8]) -> (id: BlobId)
    ensures
        id@ == content_id(bytes@),
{
    let digest = sha256_digest(bytes);
    let text = blob_id_for_digest(digest.as_slice());
    proof {
        lemma_blob_id_text_valid(digest@);
    }
    BlobId { value: text }
}

/// Checks bytes read back for `id` against their digest: content whose
/// identity is not `id` is corrupt.
pub fn verify_content(id: &BlobId, bytes: &[u8]) -> (r: Result<(), PersistenceError>)
    ensures
        r is Ok <==> content_id(bytes@) == id@,
        r is Err ==> (r matches Err(PersistenceError::BlobCorrupt { id: c }) && c@ == id@),
{
    let actual = digest_id(bytes);
    if text_eq(actual.as_str(), id.as_str()) {
        Ok(())
    } else {
        Err(PersistenceError::BlobCorrupt { id: id.as_str().to_owned() })
    }
}

/// The directory under the profile root that holds the blobs.
pub const BLOB_DIRECTORY: &'static str = "blobs";

/// The name of the temporary file a blob is written to before it is
/// published under its identity: hidden, unique per process and sequence.
pub fn temporary_file_name(id: &BlobId, process_id: u32, sequence: u64) -> (s: String)
    ensures
        s@ == "."@ + id@ + "."@ + decimal(process_id as nat) + "."@ + decimal(sequence as nat)
            + ".tmp"@,
{
    let mut s = String::from_str(".");
    s.append(id.as_str());
    s.append(".");
    push_decimal(&mut s, process_id as u64);
    s.append(".");
    push_decimal(&mut s, sequence);
    s.append(".tmp");
    s
}

/// A refused or failed blob read.
#[derive(Clone, Debug, PartialEq, Eq)]
pub enum BlobReadError {
    /// The grant does not cover this exact principal, capability and blob.
    AccessDenied { principal_id: String, blob_id: String },
    /// The store failed to produce verified bytes.
    Storage(PersistenceError),
}

/// One grant as text: principal, capability, blob.
pub type GrantKey = (Seq<char>, Seq<char>, Seq<char>);

/// The text of one stored grant tuple.
pub open spec fn key_of(t: (String, String, String)) -> GrantKey {
    (t.0@, t.1@, t.2@)
}

/// Why a capability cannot authorize blob reads.
pub open spec fn foreign_capability_text(capability: Seq<char>) -> Seq<char> {
    "capability '"@ + capability + "' cannot authorize generic blob reads"@
}

/// Why a blob scope is refused.
pub open spec fn invalid_scope_text(blob_id: Seq<char>) -> Seq<char> {
    "invalid blob scope for read grant: "@ + invalid_blob_id_text(blob_id)
}

/// Why a grant without a principal is refused.
pub open spec fn missing_principal_text() -> Seq<char> {
    "blob read grant requires a principal"@
}

/// Host-side admission broker for blob reads. Grants are exact
/// `(principal, capability, blob)` tuples, each held once.
#[derive(Debug)]
pub struct BlobReadBroker {
    grants: Vec<(String, String, String)>,
}

impl BlobReadBroker {
    /// The grants issued so far.
    pub closed spec fn granted(&self) -> Set<GrantKey> {
        Set::new(|k: GrantKey| exists|i: int| 0 <= i < self.grants@.len() && key_of(#[trigger] self.grants@[i]) == k)
    }

    #[verifier::type_invariant]
    closed spec fn held_once(self) -> bool {
        forall|i: int, j: int|
            0 <= i < j < self.grants@.len() ==> key_of(#[trigger] self.grants@[i]) != key_of(#[trigger] self.grants@[j])
    }

    /// A broker that has granted nothing.
    pub fn new() -> (b: Self)
        ensures
            b.granted() == Set::<GrantKey>::empty(),
    {
        let b = BlobReadBroker { grants: Vec::new() };
        assert(b.granted() =~= Set::<GrantKey>::empty());
        b
    }

    fn holds(&self, principal_id: &String, capability: &String, blob_id: &String) -> (b: bool)
        ensures
            b == self.granted().contains((principal_id@, capability@, blob_id@)),
    {
        let mut i: usize = 0;
        while i < self.grants.len()
            invariant
                i <= self.grants@.len(),
                forall|j: int| 0 <= j < i ==> key_of(#[trigger] self.grants@[j]) != (principal_id@, capability@, blob_id@),
            decreases self.grants.len() - i,
        {
            let t = &self.grants[i];
            if t.0 == *principal_id && t.1 == *capability && t.2 == *blob_id {
                assert(key_of(self.grants@[i as int]) == (principal_id@, capability@, blob_id@));
                return true;
            }
            i += 1;
        }
        false
    }

    /// Issues an exact read grant. Fails, granting nothing, when the
    /// capability is not the generic blob-read capability, when the blob
    /// scope is not a blob identity, or when the principal is empty.
    pub fn issue(&mut self, principal_id: String, capability: &str, blob_id: String) -> (r: Result<BlobReadGrant, String>)
        ensures
            capability@ != "blob.read"@ ==> (r matches Err(m) && m@ == foreign_capability_text(capability@)),
            capability@ == "blob.read"@ && !valid_blob_id(blob_id@) ==> (r matches Err(m) && m@ == invalid_scope_text(blob_id@)),
            capability@ == "blob.read"@ && valid_blob_id(blob_id@) && principal_id@.len() == 0 ==> (r matches Err(m) && m@ == missing_principal_text()),
            r is Err ==> final(self).granted() == old(self).granted(),
            old(self).granted().subset_of(final(self).granted()),
            capability@ == "blob.read"@ && valid_blob_id(blob_id@) && principal_id@.len() > 0 ==> (r matches Ok(g)
                && g.principal_view() == principal_id@
                && g.capability_view() == capability@
                && g.blob_view() == blob_id@
                && final(self).granted() == old(self).granted().insert((principal_id@, capability@, blob_id@))),
    {
        if !text_eq(capability, BLOB_READ_CAPABILITY) {
            let mut m = String::from_str("capability '");
            m.append(capability);
            m.append("' cannot authorize generic blob reads");
            return Err(m);
        }
        let id = match BlobId::new(blob_id) {
            Ok(id) => id,
            Err(error) => {
                let mut m = String::from_str("invalid blob scope for read grant: ");
                m.append(error.as_str());
                return Err(m);
            },
        };
        if principal_id.as_str().is_empty() {
            return Err(String::from_str("blob read grant requires a principal"));
        }
        proof {
            use_type_invariant(&*self);
        }
        let blob_id = id.as_str().to_owned();
        let capability = capability.to_owned();
        let ghost before = self.granted();
        let ghost key: GrantKey = (principal_id@, capability@, blob_id@);
        let ghost old_grants = self.grants@;
        if !self.holds(&principal_id, &capability, &blob_id) {
            let mut grants = Vec::new();
            std::mem::swap(&mut grants, &mut self.grants);
            grants.push((principal_id.clone(), capability.clone(), blob_id.clone()));
            self.grants = grants;
            proof {
                assert(key_of(self.grants@[old_grants.len() as int]) == key);
                assert forall|k: GrantKey| #[trigger] self.granted().contains(k) == before.insert(key).contains(k) by {
                    if self.granted().contains(k) {
                        let i = choose|i: int| 0 <= i < self.grants@.len() && key_of(#[trigger] self.grants@[i]) == k;
                        if i < old_grants.len() {
                            assert(key_of(old_grants[i]) == k);
                        }
                    }
                    if before.contains(k) {
                        let i = choose|i: int| 0 <= i < old_grants.len() && key_of(#[trigger] old_grants[i]) == k;
                        assert(key_of(self.grants@[i]) == k);
                    }
                }
                assert(self.granted() =~= before.insert(key));
            }
        } else {
            assert(self.granted() =~= before.insert(key));
        }
        Ok(BlobReadGrant { principal_id, capability, blob_id })
    }
}

/// An exact-scope generic read grant, issued only by a broker.
#[derive(Debug)]
pub struct BlobReadGrant {
    principal_id: String,
    capability: String,
    blob_id: String,
}

impl Clone for BlobReadGrant {
    /// The same grant: the same principal, capability and blob.
    fn clone(&self) -> (c: Self)
        ensures
            c.key() == self.key(),
    {
        BlobReadGrant {
            principal_id: self.principal_id.clone(),
            capability: self.capability.clone(),
            blob_id: self.blob_id.clone(),
        }
    }
}

impl BlobReadGrant {
    /// The principal the grant is for.
    pub closed spec fn principal_view(&self) -> Seq<char> {
        self.principal_id@
    }

    /// The capability the grant carries.
    pub closed spec fn capability_view(&self) -> Seq<char> {
        self.capability@
    }

    /// The blob the grant covers.
    pub closed spec fn blob_view(&self) -> Seq<char> {
        self.blob_id@
    }

    /// The grant's tuple.
    pub open spec fn key(&self) -> GrantKey {
        (self.principal_view(), self.capability_view(), self.blob_view())
    }

    /// The principal the grant is for.
    pub fn principal_id(&self) -> (s: &str)
        ensures
            s@ == self.principal_view(),
    {
        self.principal_id.as_str()
    }

    /// The capability the grant carries.
    pub fn capability(&self) -> (s: &str)
        ensures
            s@ == self.capability_view(),
    {
        self.capability.as_str()
    }

    /// The blob the grant covers.
    pub fn blob_id(&self) -> (s: &str)
        ensures
            s@ == self.blob_view(),
    {
        self.blob_id.as_str()
    }

    /// Whether `broker` still holds this exact tuple.
    pub fn is_active(&self, broker: &BlobReadBroker) -> (b: bool)
        ensures
            b == broker.granted().contains(self.key()),
    {
        broker.holds(&self.principal_id, &self.capability, &self.blob_id)
    }
}

/// Whether `grant`, checked against `broker`, authorizes reading `id`.
pub open spec fn read_authorized(broker: &BlobReadBroker, id: Seq<char>, grant: &BlobReadGrant) -> bool {
    &&& grant.blob_view() == id
    &&& grant.capability_view() == "blob.read"@
    &&& broker.granted().contains(grant.key())
}

/// A grant is exact in scope: it authorizes reading its own blob and no
/// other, whichever broker checks it.
pub proof fn law_grant_scope_is_exact(broker: &BlobReadBroker, grant: &BlobReadGrant, id: Seq<char>)
    requires
        id != grant.blob_view(),
    ensures
        !read_authorized(broker, id, grant),
{
}

/// Filesystem-backed immutable content-addressed blob storage: the profile
/// root and the blob directory under it.
#[derive(Clone, Debug)]
pub struct FilesystemBlobStore {
    profile_root: String,
    blob_root: String,
}

impl FilesystemBlobStore {
    /// A store over already created and canonical roots.
    pub fn from_roots(profile_root: String, blob_root: String) -> (s: Self)
        ensures
            s.profile_root_view() == profile_root@,
            s.blob_root_view() == blob_root@,
    {
        FilesystemBlobStore { profile_root, blob_root }
    }

    /// The profile root.
    pub closed spec fn profile_root_view(&self) -> Seq<char> {
        self.profile_root@
    }

    /// The blob directory.
    pub closed spec fn blob_root_view(&self) -> Seq<char> {
        self.blob_root@
    }

    /// The profile root.
    pub fn profile_root(&self) -> (s: &str)
        ensures
            s@ == self.profile_root_view(),
    {
        self.profile_root.as_str()
    }

    /// The blob directory.
    pub fn blob_root(&self) -> (s: &str)
        ensures
            s@ == self.blob_root_view(),
    {
        self.blob_root.as_str()
    }

    /// Whether `broker` admits `grant` for reading `id`: the grant covers
    /// exactly that blob with the generic read capability and is still
    /// held. The store reads no bytes for a read it does not admit.
    pub fn admits(&self, broker: &BlobReadBroker, id: &BlobId, grant: &BlobReadGrant) -> (b: bool)
        ensures
            b == read_authorized(broker, id@, grant),
    {
        text_eq(grant.blob_id(), id.as_str()) && text_eq(grant.capability(), BLOB_READ_CAPABILITY)
            && grant.is_active(broker)
    }

    /// Reads a blob only after `broker` admits the exact principal,
    /// capability and blob tuple of `grant`; `stored` is what the store
    /// read for `id`, which is checked against its digest before it is
    /// handed out.
    pub fn get_with_authority(
        &self,
        broker: &BlobReadBroker,
        id: &BlobId,
        grant: &BlobReadGrant,
        stored: Result<Vec<u8>, PersistenceError>,
    ) -> (r: Result<Vec<u8>, BlobReadError>)
        ensures
            !read_authorized(broker, id@, grant) ==> (r matches Err(BlobReadError::AccessDenied { principal_id, blob_id })
                && principal_id@ == grant.principal_view() && blob_id@ == id@),
            read_authorized(broker, id@, grant) ==> match stored {
                Err(e) => r == Err::<Vec<u8>, BlobReadError>(BlobReadError::Storage(e)),
                Ok(bytes) => if content_id(bytes@) == id@ {
                    r == Ok::<Vec<u8>, BlobReadError>(bytes)
                } else {
                    r matches Err(BlobReadError::Storage(PersistenceError::BlobCorrupt { id: c })) && c@ == id@
                },
            },
    {
        if !self.admits(broker, id, grant) {
            return Err(BlobReadError::AccessDenied {
                principal_id: grant.principal_id().to_owned(),
                blob_id: id.as_str().to_owned(),
            });
        }
        match stored {
            Err(e) => Err(BlobReadError::Storage(e)),
            Ok(bytes) => match verify_content(id, bytes.as_slice()) {
                Ok(()) => Ok(bytes),
                Err(e) => Err(BlobReadError::Storage(e)),
            },
        }
    }
}

} // verus!
