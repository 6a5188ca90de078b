//! Cells: manifests, the capability lattice and the loading policy that decides
//! whether a cell may load.
use vstd::prelude::*;
use sha2::{Digest, Sha256};
use crate::text::{append_str, chars_of, starts_with, starts_with_chars, string_of};

verus! {

/// Trust tier of a cell, most trusted first.
#[derive(Debug, Clone, Copy, PartialEq, Eq, Structural)]
pub enum TrustTier {
    /// Verified and security-reviewed by Hermon.
    HermonVerified,
    /// Signed by your team key.
    TeamVerified,
    /// A local developer cell, not distributed.
    UserSigned,
    /// Signed by a third party; each install needs approval.
    ThirdParty,
    /// Unsigned; not loaded unless explicitly allowed.
    Untrusted,
}

/// How much a tier is trusted: higher is more.
pub open spec fn tier_rank(t: TrustTier) -> int {
    match t {
        TrustTier::HermonVerified => 4,
        TrustTier::TeamVerified => 3,
        TrustTier::UserSigned => 2,
        TrustTier::ThirdParty => 1,
        TrustTier::Untrusted => 0,
    }
}

/// The variant's name, as `{:?}` prints it.
pub open spec fn tier_name(t: TrustTier) -> Seq<char> {
    match t {
        TrustTier::HermonVerified => "HermonVerified"@,
        TrustTier::TeamVerified => "TeamVerified"@,
        TrustTier::UserSigned => "UserSigned"@,
        TrustTier::ThirdParty => "ThirdParty"@,
        TrustTier::Untrusted => "Untrusted"@,
    }
}

impl TrustTier {
    /// The variant's name, as `{:?}` prints it.
    pub fn name(&self) -> (r: &'static str)
        ensures
            r@ == tier_name(*self),
    {
        match self {
            TrustTier::HermonVerified => "HermonVerified",
            TrustTier::TeamVerified => "TeamVerified",
            TrustTier::UserSigned => "UserSigned",
            TrustTier::ThirdParty => "ThirdParty",
            TrustTier::Untrusted => "Untrusted",
        }
    }
}

/// What a cell may touch. Path scopes are prefixes.
#[derive(Debug, Clone)]
pub struct Capabilities {
    pub fs_read: Vec<String>,
    pub fs_write: Vec<String>,
    pub net_fetch: bool,
    pub model_invoke: bool,
    pub world_read: bool,
    pub world_patch: bool,
    pub finance_read: bool,
    /// Finance writes must still pass the payment gate even when set.
    pub finance_transact: bool,
}

impl Default for Capabilities {
    fn default() -> (r: Self)
        ensures
            r.fs_read@.len() == 0 && r.fs_write@.len() == 0,
            !r.net_fetch && !r.model_invoke && !r.world_read && !r.world_patch,
            !r.finance_read && !r.finance_transact,
    {
        Capabilities {
            fs_read: Vec::new(),
            fs_write: Vec::new(),
            net_fetch: false,
            model_invoke: false,
            world_read: false,
            world_patch: false,
            finance_read: false,
            finance_transact: false,
        }
    }
}

/// Every scope of `a` lies under some scope of `b`.
pub open spec fn scope_subset(a: Seq<Seq<char>>, b: Seq<Seq<char>>) -> bool {
    forall|i: int| 0 <= i < a.len() ==> #[trigger] under_some_scope(a[i], b)
}

/// `p` lies under some scope of `b`.
pub open spec fn under_some_scope(p: Seq<char>, b: Seq<Seq<char>>) -> bool {
    exists|j: int| 0 <= j < b.len() && #[trigger] starts_with(p, b[j])
}

pub open spec fn scopes(v: Seq<String>) -> Seq<Seq<char>> {
    v.map_values(|s: String| s@)
}

/// `a` asks for nothing that `b` does not grant.
pub open spec fn caps_subset(a: Capabilities, b: Capabilities) -> bool {
    &&& scope_subset(scopes(a.fs_read@), scopes(b.fs_read@))
    &&& scope_subset(scopes(a.fs_write@), scopes(b.fs_write@))
    &&& (a.net_fetch ==> b.net_fetch)
    &&& (a.model_invoke ==> b.model_invoke)
    &&& (a.world_read ==> b.world_read)
    &&& (a.world_patch ==> b.world_patch)
    &&& (a.finance_read ==> b.finance_read)
    &&& (a.finance_transact ==> b.finance_transact)
}

fn under_some(p: &String, b: &Vec<String>) -> (r: bool)
    ensures
        r == under_some_scope(p@, scopes(b@)),
{
    let pc = chars_of(p.as_str());
    let mut j: usize = 0;
    while j < b.len()
        invariant
            j <= b@.len(),
            pc@ == p@,
            forall|k: int| 0 <= k < j ==> !#[trigger] starts_with(p@, scopes(b@)[k]),
        decreases b.len() - j,
    {
        let q = chars_of(b[j].as_str());
        assert(scopes(b@)[j as int] == q@);
        if starts_with_chars(&pc, &q) {
            return true;
        }
        j = j + 1;
    }
    false
}

fn scopes_within(a: &Vec<String>, b: &Vec<String>) -> (r: bool)
    ensures
        r == scope_subset(scopes(a@), scopes(b@)),
{
    let mut i: usize = 0;
    while i < a.len()
        invariant
            i <= a@.len(),
            forall|k: int| 0 <= k < i ==> #[trigger] under_some_scope(scopes(a@)[k], scopes(b@)),
        decreases a.len() - i,
    {
        assert(scopes(a@)[i as int] == a@[i as int]@);
        if !under_some(&a[i], b) {
            return false;
        }
        i = i + 1;
    }
    true
}

impl Capabilities {
    /// Whether these capabilities stay within `other`'s: each path scope
    /// lies under one of `other`'s, and each flag is granted there too.
    /// A child cell may not exceed its parent.
    pub fn is_subset_of(&self, other: &Capabilities) -> (r: bool)
        ensures
            r == caps_subset(*self, *other),
    {
        scopes_within(&self.fs_read, &other.fs_read) && scopes_within(&self.fs_write, &other.fs_write) && (
        !self.net_fetch || other.net_fetch) && (!self.model_invoke || other.model_invoke) && (!self.world_read
            || other.world_read) && (!self.world_patch || other.world_patch) && (!self.finance_read
            || other.finance_read) && (!self.finance_transact || other.finance_transact)
    }
}

proof fn lemma_starts_with_trans(a: Seq<char>, b: Seq<char>, c: Seq<char>)
    requires
        starts_with(a, b),
        starts_with(b, c),
    ensures
        starts_with(a, c),
{
    assert(a.take(c.len() as int) =~= b.take(c.len() as int));
}

/// Every capability set stays within itself.
pub proof fn lemma_caps_subset_reflexive(a: Capabilities)
    ensures
        caps_subset(a, a),
{
    assert forall|v: Seq<Seq<char>>, i: int| 0 <= i < v.len() implies #[trigger] under_some_scope(v[i], v) by {
        assert(v[i].take(v[i].len() as int) =~= v[i]);
        assert(starts_with(v[i], v[i]));
    }
}

/// A cell within a cell within a third stays within the third.
pub proof fn lemma_caps_subset_transitive(a: Capabilities, b: Capabilities, c: Capabilities)
    requires
        caps_subset(a, b),
        caps_subset(b, c),
    ensures
        caps_subset(a, c),
{
    assert forall|x: Seq<Seq<char>>, y: Seq<Seq<char>>, z: Seq<Seq<char>>|
        scope_subset(x, y) && scope_subset(y, z) implies scope_subset(x, z) by {
        assert forall|i: int| 0 <= i < x.len() implies #[trigger] under_some_scope(x[i], z) by {
            assert(under_some_scope(x[i], y));
            let j = choose|j: int| 0 <= j < y.len() && #[trigger] starts_with(x[i], y[j]);
            assert(under_some_scope(y[j], z));
            let k = choose|k: int| 0 <= k < z.len() && #[trigger] starts_with(y[j], z[k]);
            lemma_starts_with_trans(x[i], y[j], z[k]);
        }
    }
}

/// A cell's manifest.
#[derive(Debug)]
pub struct CellManifest {
    pub id: String,
    pub name: String,
    pub version: String,
    pub author: String,
    /// Creation time, RFC 3339 in UTC, as the manifest file writes it.
    pub created_at: String,
    pub trust_tier: TrustTier,
    pub capabilities: Capabilities,
    /// Logical wasm entry; `None` for cells that only declare capabilities.
    pub wasm_entry: Option<String>,
    pub events_in: Vec<String>,
    pub events_out: Vec<String>,
    /// Signature; `None` means unsigned.
    pub signature: Option<String>,
}

/// A capability set as plain values.
pub type CapsView = (Seq<Seq<char>>, Seq<Seq<char>>, bool, bool, bool, bool, bool, bool);

pub open spec fn caps_view(c: Capabilities) -> CapsView {
    (
        scopes(c.fs_read@),
        scopes(c.fs_write@),
        c.net_fetch,
        c.model_invoke,
        c.world_read,
        c.world_patch,
        c.finance_read,
        c.finance_transact,
    )
}

/// A manifest as plain values: id, name, version, author, creation
/// time, tier, capabilities, wasm entry, events in and out, signature.
pub type ManifestView = (
    Seq<char>,
    Seq<char>,
    Seq<char>,
    Seq<char>,
    Seq<char>,
    TrustTier,
    CapsView,
    Option<Seq<char>>,
    Seq<Seq<char>>,
    Seq<Seq<char>>,
    Option<Seq<char>>,
);

impl View for CellManifest {
    type V = ManifestView;

    open spec fn view(&self) -> ManifestView {
        (
            self.id@,
            self.name@,
            self.version@,
            self.author@,
            self.created_at@,
            self.trust_tier,
            caps_view(self.capabilities),
            opt_text(self.wasm_entry),
            scopes(self.events_in@),
            scopes(self.events_out@),
            opt_text(self.signature),
        )
    }
}

pub open spec fn opt_text(o: Option<String>) -> Option<Seq<char>> {
    match o {
        Some(s) => Some(s@),
        None => None,
    }
}

fn copy_text(s: &String) -> (r: String)
    ensures
        r@ == s@,
{
    string_of(&chars_of(s.as_str()))
}

fn copy_opt_text(o: &Option<String>) -> (r: Option<String>)
    ensures
        opt_text(r) == opt_text(*o),
{
    match o {
        Some(s) => Some(copy_text(s)),
        None => None,
    }
}

fn copy_texts(v: &Vec<String>) -> (r: Vec<String>)
    ensures
        scopes(r@) == scopes(v@),
{
    let mut r: Vec<String> = Vec::new();
    for i in 0..v.len()
        invariant
            scopes(r@) == scopes(v@.take(i as int)),
    {
        let ghost prev = scopes(r@);
        r.push(copy_text(&v[i]));
        let ghost n = i + 1;
        assert(scopes(v@.take(n)) =~= scopes(v@.take(i as int)).push(v@[i as int]@));
        assert(scopes(r@) =~= prev.push(v@[i as int]@));
    }
    assert(v@.take(v@.len() as int) =~= v@);
    r
}

/// A manifest's view with the signature cleared.
pub open spec fn unsigned_view(v: ManifestView) -> ManifestView {
    (v.0, v.1, v.2, v.3, v.4, v.5, v.6, v.7, v.8, v.9, None)
}

/// The signature never reaches what is hashed: manifests that differ
/// in their signature alone have the same unsigned form.
pub proof fn lemma_unsigned_ignores_signature(a: ManifestView, b: ManifestView)
    requires
        (a.0, a.1, a.2, a.3, a.4, a.5, a.6, a.7, a.8, a.9) == (b.0, b.1, b.2, b.3, b.4, b.5, b.6, b.7, b.8, b.9),
    ensures
        unsigned_view(a) == unsigned_view(b),
{
}

impl CellManifest {
    /// The manifest with its signature cleared: what a signer signs, and
    /// what the content hash is taken of.
    pub fn unsigned(&self) -> (r: CellManifest)
        ensures
            r@ == unsigned_view(self@),
            r.signature is None,
    {
        let c = &self.capabilities;
        CellManifest {
            id: copy_text(&self.id),
            name: copy_text(&self.name),
            version: copy_text(&self.version),
            author: copy_text(&self.author),
            created_at: copy_text(&self.created_at),
            trust_tier: self.trust_tier,
            capabilities: Capabilities {
                fs_read: copy_texts(&c.fs_read),
                fs_write: copy_texts(&c.fs_write),
                net_fetch: c.net_fetch,
                model_invoke: c.model_invoke,
                world_read: c.world_read,
                world_patch: c.world_patch,
                finance_read: c.finance_read,
                finance_transact: c.finance_transact,
            },
            wasm_entry: copy_opt_text(&self.wasm_entry),
            events_in: copy_texts(&self.events_in),
            events_out: copy_texts(&self.events_out),
            signature: None,
        }
    }
}

/// The SHA-256 digest of a byte string.
pub uninterp spec fn sha256_of(data: Seq<u8>) -> Seq<u8>;

/// `Sha256::digest` of `sha2`: the 32-byte SHA-256 digest of `data`.
#[verifier::external_body]
pub(crate) fn sha256(data: &Vec<u8>) -> (r: Vec<u8>)
    ensures
        r@ == sha256_of(data@),
        r@.len() == 32,
{
    Sha256::digest(data.as_slice()).to_vec()
}

pub open spec fn hex_digit(n: u8) -> char {
    if n < 10 {
        (('0' as u8) + n) as char
    } else {
        (('a' as u8) + n - 10) as char
    }
}

/// Lower-case hexadecimal, two digits per byte, high nibble first.
pub open spec fn hex_lower_spec(bytes: Seq<u8>) -> Seq<char>
    decreases bytes.len(),
{
    if bytes.len() == 0 {
        Seq::empty()
    } else {
        hex_lower_spec(bytes.drop_last()) + seq![
            hex_digit(bytes.last() / 16),
            hex_digit(bytes.last() % 16),
        ]
    }
}

fn hex_char(n: u8) -> (c: char)
    requires
        n < 16,
    ensures
        c == hex_digit(n),
{
    if n < 10 {
        (48u8 + n) as char
    } else {
        (97u8 + n - 10) as char
    }
}

/// Lower-case hexadecimal of a byte string.
pub fn hex_lower(bytes: &Vec<u8>) -> (s: String)
    ensures
        s@ == hex_lower_spec(bytes@),
{
    let mut v: Vec<char> = Vec::new();
    let mut i: usize = 0;
    while i < bytes.len()
        invariant
            i <= bytes@.len(),
            v@ == hex_lower_spec(bytes@.take(i as int)),
        decreases bytes.len() - i,
    {
        let b = bytes[i];
        assert(bytes@.take(i + 1).drop_last() =~= bytes@.take(i as int));
        assert(b >> 4 == b / 16) by (bit_vector);
        assert(b & 0xF == b % 16) by (bit_vector);
        let hi = b >> 4;
        let lo = b & 0xF;
        v.push(hex_char(hi));
        v.push(hex_char(lo));
        assert(v@ =~= hex_lower_spec(bytes@.take(i + 1)));
        i = i + 1;
    }
    assert(bytes@.take(bytes@.len() as int) =~= bytes@);
    string_of(&v)
}

/// The content hash of a manifest, given the JSON bytes of the manifest
/// with its signature cleared: the SHA-256 of those bytes in lower-case
/// hexadecimal. This is what a signer signs.
pub fn content_hash_hex(unsigned_json: &Vec<u8>) -> (s: String)
    ensures
        s@ == hex_lower_spec(sha256_of(unsigned_json@)),
        s@.len() == 64,
{
    let d = sha256(unsigned_json);
    let s = hex_lower(&d);
    proof {
        lemma_hex_len(d@);
    }
    s
}

proof fn lemma_hex_len(b: Seq<u8>)
    ensures
        hex_lower_spec(b).len() == 2 * b.len(),
    decreases b.len(),
{
    if b.len() > 0 {
        lemma_hex_len(b.drop_last());
    }
}

/// Why a cell may not load.
#[derive(Debug, Clone)]
pub enum CellError {
    CapabilityDenied(String),
    Untrusted(String),
    InvalidManifest(String),
}

pub open spec fn cell_error_text(e: CellError) -> Seq<char> {
    match e {
        CellError::CapabilityDenied(m) => "capability denied: "@ + m@,
        CellError::Untrusted(m) => "untrusted cell: "@ + m@,
        CellError::InvalidManifest(m) => "invalid manifest: "@ + m@,
    }
}

impl CellError {
    /// The error as text.
    pub fn to_string(&self) -> (r: String)
        ensures
            r@ == cell_error_text(*self),
    {
        let mut v: Vec<char> = Vec::new();
        match self {
            CellError::CapabilityDenied(m) => {
                append_str(&mut v, "capability denied: ");
                append_str(&mut v, m.as_str());
            },
            CellError::Untrusted(m) => {
                append_str(&mut v, "untrusted cell: ");
                append_str(&mut v, m.as_str());
            },
            CellError::InvalidManifest(m) => {
                append_str(&mut v, "invalid manifest: ");
                append_str(&mut v, m.as_str());
            },
        }
        string_of(&v)
    }
}

/// A per-user loading policy.
#[derive(Debug, Clone, Copy, PartialEq, Eq, Structural)]
pub struct CellGate {
    pub minimum_tier: TrustTier,
    /// Refuse every cell without a signature.
    pub require_signature: bool,
}

impl Default for CellGate {
    fn default() -> (r: Self)
        ensures
            r.minimum_tier == TrustTier::HermonVerified,
            r.require_signature,
    {
        CellGate { minimum_tier: TrustTier::HermonVerified, require_signature: true }
    }
}

/// The tier table of the loading policy.
pub open spec fn tier_allows(minimum: TrustTier, actual: TrustTier) -> bool {
    match (minimum, actual) {
        (TrustTier::Untrusted, _) => true,
        (_, TrustTier::Untrusted) => false,
        (TrustTier::ThirdParty, _) => true,
        (TrustTier::UserSigned, TrustTier::ThirdParty) => false,
        (TrustTier::UserSigned, _) => true,
        (TrustTier::TeamVerified, TrustTier::ThirdParty) => false,
        (TrustTier::TeamVerified, TrustTier::UserSigned) => false,
        (TrustTier::TeamVerified, _) => true,
        (TrustTier::HermonVerified, TrustTier::HermonVerified) => true,
        (TrustTier::HermonVerified, _) => false,
    }
}

/// The policy admits a tier exactly when it is trusted at least as much
/// as the minimum.
pub proof fn lemma_tier_allows_is_rank_order(minimum: TrustTier, actual: TrustTier)
    ensures
        tier_allows(minimum, actual) <==> tier_rank(actual) >= tier_rank(minimum),
{
}

/// Raising the minimum never admits more cells.
pub proof fn lemma_stricter_gate_admits_less(low: TrustTier, high: TrustTier, actual: TrustTier)
    requires
        tier_rank(low) <= tier_rank(high),
        tier_allows(high, actual),
    ensures
        tier_allows(low, actual),
{
}

fn allows(minimum: TrustTier, actual: TrustTier) -> (r: bool)
    ensures
        r == tier_allows(minimum, actual),
{
    match (minimum, actual) {
        (TrustTier::Untrusted, _) => true,
        (_, TrustTier::Untrusted) => false,
        (TrustTier::ThirdParty, _) => true,
        (TrustTier::UserSigned, TrustTier::ThirdParty) => false,
        (TrustTier::UserSigned, _) => true,
        (TrustTier::TeamVerified, TrustTier::ThirdParty) => false,
        (TrustTier::TeamVerified, TrustTier::UserSigned) => false,
        (TrustTier::TeamVerified, _) => true,
        (TrustTier::HermonVerified, TrustTier::HermonVerified) => true,
        (TrustTier::HermonVerified, _) => false,
    }
}

impl CellGate {
    /// Whether a cell may load: a required signature must be present,
    /// then the cell's tier must be trusted at least as much as the
    /// minimum.
    pub fn check(&self, manifest: &CellManifest) -> (r: Result<(), CellError>)
        ensures
            self.require_signature && manifest.signature is None ==> (r matches Err(CellError::Untrusted(m))
                && m@ == "missing signature"@),
            !(self.require_signature && manifest.signature is None) && !tier_allows(
                self.minimum_tier,
                manifest.trust_tier,
            ) ==> (r matches Err(CellError::Untrusted(m)) && m@ == "tier "@ + tier_name(manifest.trust_tier)
                + " below required "@ + tier_name(self.minimum_tier)),
            r is Ok <==> !(self.require_signature && manifest.signature is None) && tier_allows(
                self.minimum_tier,
                manifest.trust_tier,
            ),
    {
        if self.require_signature && manifest.signature.is_none() {
            return Err(CellError::Untrusted(string_of(&chars_of("missing signature"))));
        }
        if !allows(self.minimum_tier, manifest.trust_tier) {
            let mut v = chars_of("tier ");
            append_str(&mut v, manifest.trust_tier.name());
            append_str(&mut v, " below required ");
            append_str(&mut v, self.minimum_tier.name());
            return Err(CellError::Untrusted(string_of(&v)));
        }
        Ok(())
    }
}

} // verus!
