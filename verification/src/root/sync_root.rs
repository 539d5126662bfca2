use vstd::prelude::*;

use crate::utility::{win32_error_to_hresult, win32_hresult, ERROR_NOT_FOUND};

verus! {

/// The code unit that separates the components of a sync root id (`!`).
pub const SYNC_ROOT_ID_SEPARATOR: u16 = 0x21;

/// The longest provider name the platform accepts, in UTF-16 code units.
pub const MAX_PROVIDER_NAME_LENGTH: usize = 255;

/// The id made of the three components, separated by `!`:
/// `provider-id!security-id!account-name`.
pub open spec fn joined_id(provider: Seq<u16>, security: Seq<u16>, account: Seq<u16>) -> Seq<u16> {
    provider + seq![SYNC_ROOT_ID_SEPARATOR] + security + seq![SYNC_ROOT_ID_SEPARATOR] + account
}

/// Whether `units` holds no separator.
pub open spec fn separator_free(units: Seq<u16>) -> bool {
    forall|i: int| 0 <= i < units.len() ==> units[i] != SYNC_ROOT_ID_SEPARATOR
}

/// Whether `(provider, security, account)` is how `id` reads as three
/// components: the first two hold no separator, so they end at the first two
/// separators of the id, and the account is the rest.
pub open spec fn splits_into(
    id: Seq<u16>,
    provider: Seq<u16>,
    security: Seq<u16>,
    account: Seq<u16>,
) -> bool {
    &&& separator_free(provider)
    &&& separator_free(security)
    &&& id == joined_id(provider, security, account)
}

/// Whether `id` holds at least two separators, so that it reads as three
/// components.
pub open spec fn has_two_separators(id: Seq<u16>) -> bool {
    exists|i: int, j: int|
        0 <= i < j < id.len() && id[i] == SYNC_ROOT_ID_SEPARATOR && id[j] == SYNC_ROOT_ID_SEPARATOR
}

/// The three components that `id` reads as.
pub open spec fn components_of(id: Seq<u16>) -> (Seq<u16>, Seq<u16>, Seq<u16>) {
    choose|c: (Seq<u16>, Seq<u16>, Seq<u16>)| splits_into(id, c.0, c.1, c.2)
}

/// An id reads as three components in one way at most.
pub proof fn lemma_split_unique(
    id: Seq<u16>,
    p1: Seq<u16>,
    s1: Seq<u16>,
    a1: Seq<u16>,
    p2: Seq<u16>,
    s2: Seq<u16>,
    a2: Seq<u16>,
)
    requires
        splits_into(id, p1, s1, a1),
        splits_into(id, p2, s2, a2),
    ensures
        p1 == p2,
        s1 == s2,
        a1 == a2,
{
    if p1.len() < p2.len() {
        assert(id[p1.len() as int] == SYNC_ROOT_ID_SEPARATOR);
        assert(id[p1.len() as int] == p2[p1.len() as int]);
    }
    if p2.len() < p1.len() {
        assert(id[p2.len() as int] == SYNC_ROOT_ID_SEPARATOR);
        assert(id[p2.len() as int] == p1[p2.len() as int]);
    }
    assert(p1.len() == p2.len());
    assert(p1 =~= id.take(p1.len() as int));
    assert(p2 =~= id.take(p2.len() as int));
    let base: int = p1.len() as int + 1;
    if s1.len() < s2.len() {
        assert(id[base + s1.len()] == SYNC_ROOT_ID_SEPARATOR);
        assert(id[base + s1.len()] == s2[s1.len() as int]);
    }
    if s2.len() < s1.len() {
        assert(id[base + s2.len()] == SYNC_ROOT_ID_SEPARATOR);
        assert(id[base + s2.len()] == s1[s2.len() as int]);
    }
    assert(s1.len() == s2.len());
    assert(s1 =~= id.subrange(base, base + s1.len()));
    assert(s2 =~= id.subrange(base, base + s2.len()));
    assert(a1 =~= id.skip(base + s1.len() + 1));
    assert(a2 =~= id.skip(base + s2.len() + 1));
}

/// Joining three components and reading the id back gives the same three
/// components, when the provider name and the security id hold no `!`.
pub proof fn lemma_components_of_joined(provider: Seq<u16>, security: Seq<u16>, account: Seq<u16>)
    requires
        separator_free(provider),
        separator_free(security),
    ensures
        has_two_separators(joined_id(provider, security, account)),
        components_of(joined_id(provider, security, account)) == (provider, security, account),
{
    let id = joined_id(provider, security, account);
    assert(splits_into(id, provider, security, account));
    let i = provider.len() as int;
    let j: int = provider.len() as int + 1 + security.len() as int;
    assert(id[i] == SYNC_ROOT_ID_SEPARATOR);
    assert(id[j] == SYNC_ROOT_ID_SEPARATOR);
    let w = (provider, security, account);
    assert(splits_into(id, w.0, w.1, w.2));
    let c = components_of(id);
    assert(splits_into(id, c.0, c.1, c.2));
    lemma_split_unique(id, c.0, c.1, c.2, provider, security, account);
}

/// A user security id (SID), in UTF-16.
#[derive(Debug, Clone)]
pub struct SecurityId {
    id: Vec<u16>,
}

impl View for SecurityId {
    type V = Seq<u16>;

    closed spec fn view(&self) -> Seq<u16> {
        self.id@
    }
}

impl SecurityId {
    /// Creates a new [SecurityId] without any assertions.
    pub fn new_unchecked(id: Vec<u16>) -> (r: Self)
        ensures
            r@ == id@,
    {
        SecurityId { id }
    }

    /// The security id, in UTF-16.
    pub fn as_units(&self) -> (r: &[u16])
        ensures
            r@ == self@,
    {
        self.id.as_slice()
    }
}

/// A builder to construct a [SyncRootId].
#[derive(Debug, Clone)]
pub struct SyncRootIdBuilder {
    provider_name: Vec<u16>,
    user_security_id: SecurityId,
    account_name: Vec<u16>,
}

impl SyncRootIdBuilder {
    /// The provider name.
    pub closed spec fn spec_provider_name(&self) -> Seq<u16> {
        self.provider_name@
    }

    /// The user security id.
    pub closed spec fn spec_user_security_id(&self) -> Seq<u16> {
        self.user_security_id@
    }

    /// The account name.
    pub closed spec fn spec_account_name(&self) -> Seq<u16> {
        self.account_name@
    }

    /// Create a new builder with the given provider name.
    ///
    /// The provider name must not contain exclamation points and it must be within
    /// [255](https://docs.microsoft.com/en-us/windows/win32/api/cfapi/ns-cfapi-cf_sync_root_provider_info#remarks) characters.
    pub fn new(provider_name: Vec<u16>) -> (r: Self)
        requires
            provider_name@.len() <= MAX_PROVIDER_NAME_LENGTH,
        ensures
            r.spec_provider_name() == provider_name@,
            r.spec_user_security_id() == Seq::<u16>::empty(),
            r.spec_account_name() == Seq::<u16>::empty(),
    {
        SyncRootIdBuilder {
            provider_name,
            user_security_id: SecurityId { id: Vec::new() },
            account_name: Vec::new(),
        }
    }

    /// The security id of the Windows user.
    ///
    /// By default, a sync root registered without a user security id will be installed globally.
    pub fn user_security_id(self, security_id: SecurityId) -> (r: Self)
        ensures
            r.spec_provider_name() == self.spec_provider_name(),
            r.spec_user_security_id() == security_id@,
            r.spec_account_name() == self.spec_account_name(),
    {
        SyncRootIdBuilder { user_security_id: security_id, ..self }
    }

    /// The name of the user's account.
    ///
    /// This value does not have any actual meaning and it could theoretically be anything.
    /// However, it is encouraged to set this value to the account name of the user on the remote.
    pub fn account_name(self, account_name: Vec<u16>) -> (r: Self)
        ensures
            r.spec_provider_name() == self.spec_provider_name(),
            r.spec_user_security_id() == self.spec_user_security_id(),
            r.spec_account_name() == account_name@,
    {
        SyncRootIdBuilder { account_name, ..self }
    }

    /// Constructs a [SyncRootId] from the builder:
    /// `provider-name!security-id!account-name`.
    pub fn build(self) -> (r: SyncRootId)
        ensures
            r@ == joined_id(
                self.spec_provider_name(),
                self.spec_user_security_id(),
                self.spec_account_name(),
            ),
    {
        let mut id = self.provider_name;
        id.push(SYNC_ROOT_ID_SEPARATOR);
        let mut security = self.user_security_id.id;
        id.append(&mut security);
        id.push(SYNC_ROOT_ID_SEPARATOR);
        let mut account = self.account_name;
        id.append(&mut account);
        SyncRootId { id }
    }
}

/// The identifier for a sync root, in UTF-16.
///
/// The inner value comes in the form:
/// `provider-id!security-id!account-name`
/// as specified
/// [here](https://docs.microsoft.com/en-us/uwp/api/windows.storage.provider.storageprovidersyncrootinfo.id?view=winrt-22000#property-value).
#[derive(Debug, Clone)]
pub struct SyncRootId {
    id: Vec<u16>,
}

impl View for SyncRootId {
    type V = Seq<u16>;

    closed spec fn view(&self) -> Seq<u16> {
        self.id@
    }
}

/// Copies `units[start..end]`.
fn copy_units(units: &[u16], start: usize, end: usize) -> (r: Vec<u16>)
    requires
        start <= end <= units@.len(),
    ensures
        r@ == units@.subrange(start as int, end as int),
{
    let mut out: Vec<u16> = Vec::new();
    let mut i: usize = start;
    while i < end
        invariant
            start <= i <= end <= units@.len(),
            out@ =~= units@.subrange(start as int, i as int),
        decreases end - i,
    {
        out.push(units[i]);
        i = i + 1;
        assert(out@ =~= units@.subrange(start as int, i as int));
    }
    out
}

/// The index of the first separator of `units` at or after `from`.
fn find_separator(units: &[u16], from: usize) -> (r: Option<usize>)
    requires
        from <= units@.len(),
    ensures
        r matches Some(k) ==> from <= k < units@.len() && units@[k as int] == SYNC_ROOT_ID_SEPARATOR
            && forall|j: int| from <= j < k ==> units@[j] != SYNC_ROOT_ID_SEPARATOR,
        r is None ==> forall|j: int| from <= j < units@.len() ==> units@[j] != SYNC_ROOT_ID_SEPARATOR,
{
    let mut k: usize = from;
    while k < units.len()
        invariant
            from <= k <= units@.len(),
            forall|j: int| from <= j < k ==> units@[j] != SYNC_ROOT_ID_SEPARATOR,
        decreases units.len() - k,
    {
        if units[k] == SYNC_ROOT_ID_SEPARATOR {
            return Some(k);
        }
        k = k + 1;
    }
    None
}

impl SyncRootId {
    /// A [SyncRootId] from the units of an id that the platform reported.
    pub fn from_units(id: Vec<u16>) -> (r: Self)
        ensures
            r@ == id@,
    {
        SyncRootId { id }
    }

    /// A reference to the [SyncRootId] as a 16 bit string.
    pub fn as_u16str(&self) -> (r: &[u16])
        ensures
            r@ == self@,
    {
        self.id.as_slice()
    }

    /// The three components of a [SyncRootId] as described by the specification.
    ///
    /// The order goes as follows:
    /// `(provider-id, security-id, account-name)`; the id must hold at least
    /// two separators.
    pub fn to_components(&self) -> (r: (Vec<u16>, Vec<u16>, Vec<u16>))
        requires
            has_two_separators(self@),
        ensures
            splits_into(self@, r.0@, r.1@, r.2@),
            (r.0@, r.1@, r.2@) == components_of(self@),
    {
        let units = self.id.as_slice();
        let n: usize = units.len();
        let first = match find_separator(units, 0) {
            Some(k) => k,
            None => {
                proof {
                    let (i, j) = choose|i: int, j: int|
                        0 <= i < j < self@.len() && self@[i] == SYNC_ROOT_ID_SEPARATOR
                            && self@[j] == SYNC_ROOT_ID_SEPARATOR;
                    assert(units@[i] == SYNC_ROOT_ID_SEPARATOR);
                }
                return (Vec::new(), Vec::new(), Vec::new());
            },
        };
        let second = match find_separator(units, first + 1) {
            Some(k) => k,
            None => {
                proof {
                    let (i, j) = choose|i: int, j: int|
                        0 <= i < j < self@.len() && self@[i] == SYNC_ROOT_ID_SEPARATOR
                            && self@[j] == SYNC_ROOT_ID_SEPARATOR;
                    assert(units@[i] == SYNC_ROOT_ID_SEPARATOR);
                    assert(units@[j] == SYNC_ROOT_ID_SEPARATOR);
                    assert(i >= first);
                    assert(j > first);
                }
                return (Vec::new(), Vec::new(), Vec::new());
            },
        };
        let provider = copy_units(units, 0, first);
        let security = copy_units(units, first + 1, second);
        let account = copy_units(units, second + 1, n);
        proof {
            assert(self@ =~= joined_id(provider@, security@, account@));
            assert(splits_into(self@, provider@, security@, account@));
            let w = (provider@, security@, account@);
            assert(splits_into(self@, w.0, w.1, w.2));
            let c = components_of(self@);
            assert(splits_into(self@, c.0, c.1, c.2));
            lemma_split_unique(self@, c.0, c.1, c.2, provider@, security@, account@);
        }
        (provider, security, account)
    }

    /// Whether the sync root is registered, from the outcome of looking its
    /// id up: found means registered, and so does any failure but
    /// `ERROR_NOT_FOUND`.
    pub fn is_registered_from_lookup(lookup: Result<(), i32>) -> (r: bool)
        ensures
            r == match lookup {
                Ok(()) => true,
                Err(code) => code != win32_hresult(ERROR_NOT_FOUND),
            },
    {
        match lookup {
            Ok(()) => true,
            Err(code) => code != win32_error_to_hresult(ERROR_NOT_FOUND),
        }
    }
}

/// Building an id and reading its components back gives the provider name,
/// the security id and the account name the builder was given, when the
/// first two hold no `!` (as the platform's format asks).
pub proof fn lemma_build_then_components(builder: SyncRootIdBuilder, id: SyncRootId)
    requires
        id@ == joined_id(
            builder.spec_provider_name(),
            builder.spec_user_security_id(),
            builder.spec_account_name(),
        ),
        separator_free(builder.spec_provider_name()),
        separator_free(builder.spec_user_security_id()),
    ensures
        has_two_separators(id@),
        components_of(id@) == (
            builder.spec_provider_name(),
            builder.spec_user_security_id(),
            builder.spec_account_name(),
        ),
{
    lemma_components_of_joined(
        builder.spec_provider_name(),
        builder.spec_user_security_id(),
        builder.spec_account_name(),
    );
}

} // verus!
