//! The credential store: its records, and how records from a remote source
//! become local ones.

use vstd::prelude::*;
use crate::error::{MissingFieldError, RequiredField, StoreError};
use crate::text::{first_present, opt_text, value_or};

verus! {

/// Balance and expiry as the account portal reports them.
#[derive(Debug, Clone, PartialEq, Eq)]
pub struct PortalInfo {
    pub credits_balance: Option<i32>,
    pub expiry_date: Option<String>,
}

/// What a `PortalInfo` holds.
pub ghost struct PortalInfoView {
    pub credits_balance: Option<i32>,
    pub expiry_date: Option<Seq<char>>,
}

impl View for PortalInfo {
    type V = PortalInfoView;

    open spec fn view(&self) -> PortalInfoView {
        PortalInfoView {
            credits_balance: self.credits_balance,
            expiry_date: opt_text(self.expiry_date),
        }
    }
}

impl DeepView for PortalInfo {
    type V = PortalInfoView;

    open spec fn deep_view(&self) -> PortalInfoView {
        self@
    }
}

/// The portal information of an optional `PortalInfo`.
pub open spec fn opt_portal(o: Option<PortalInfo>) -> Option<PortalInfoView> {
    match o {
        Some(p) => Some(p@),
        None => None,
    }
}

impl PortalInfo {
    /// A copy that holds the same balance and expiry.
    pub fn duplicate(&self) -> (copy: PortalInfo)
        ensures
            copy@ == self@,
    {
        PortalInfo {
            credits_balance: self.credits_balance,
            expiry_date: self.expiry_date.clone(),
        }
    }
}

/// One stored credential.
#[derive(Debug, Clone, PartialEq, Eq)]
pub struct TokenRecord {
    pub id: String,
    pub tenant_url: String,
    pub access_token: String,
    pub created_at: String,
    pub updated_at: String,
    pub portal_url: Option<String>,
    pub ban_status: String,
    pub portal_info: Option<PortalInfo>,
    pub email_note: Option<String>,
    pub tag_name: Option<String>,
    pub tag_color: Option<String>,
    pub auth_session: String,
    pub suspensions: Option<String>,
    pub skip_check: bool,
    pub balance_color_mode: Option<String>,
}

/// What a `TokenRecord` holds.
pub ghost struct TokenRecordView {
    pub id: Seq<char>,
    pub tenant_url: Seq<char>,
    pub access_token: Seq<char>,
    pub created_at: Seq<char>,
    pub updated_at: Seq<char>,
    pub portal_url: Option<Seq<char>>,
    pub ban_status: Seq<char>,
    pub portal_info: Option<PortalInfoView>,
    pub email_note: Option<Seq<char>>,
    pub tag_name: Option<Seq<char>>,
    pub tag_color: Option<Seq<char>>,
    pub auth_session: Seq<char>,
    pub suspensions: Option<Seq<char>>,
    pub skip_check: bool,
    pub balance_color_mode: Option<Seq<char>>,
}

impl View for TokenRecord {
    type V = TokenRecordView;

    open spec fn view(&self) -> TokenRecordView {
        TokenRecordView {
            id: self.id@,
            tenant_url: self.tenant_url@,
            access_token: self.access_token@,
            created_at: self.created_at@,
            updated_at: self.updated_at@,
            portal_url: opt_text(self.portal_url),
            ban_status: self.ban_status@,
            portal_info: opt_portal(self.portal_info),
            email_note: opt_text(self.email_note),
            tag_name: opt_text(self.tag_name),
            tag_color: opt_text(self.tag_color),
            auth_session: self.auth_session@,
            suspensions: opt_text(self.suspensions),
            skip_check: self.skip_check,
            balance_color_mode: opt_text(self.balance_color_mode),
        }
    }
}

impl DeepView for TokenRecord {
    type V = TokenRecordView;

    open spec fn deep_view(&self) -> TokenRecordView {
        self@
    }
}

/// A credential as a remote source sends it: every field may be missing, and
/// five of them may arrive under a second, older spelling.
#[derive(Debug, Clone, PartialEq, Eq)]
pub struct RemoteTokenRecord {
    pub id: Option<String>,
    pub tenant_url: Option<String>,
    pub access_token: Option<String>,
    pub created_at: Option<String>,
    pub updated_at: Option<String>,
    pub portal_url: Option<String>,
    pub ban_status: Option<String>,
    pub portal_info: Option<PortalInfo>,
    pub email_note: Option<String>,
    pub tag_name: Option<String>,
    pub tag_color: Option<String>,
    pub auth_session: Option<String>,
    pub suspensions: Option<String>,
    pub skip_check: Option<bool>,
    pub balance_color_mode: Option<String>,
    /// `tenantUrl`
    pub tenant_url_alt: Option<String>,
    /// `accessToken`
    pub access_token_alt: Option<String>,
    /// `authSession`
    pub auth_session_alt: Option<String>,
    /// `emailNote`
    pub email_note_alt: Option<String>,
    /// `banStatus`
    pub ban_status_alt: Option<String>,
}

/// What a `RemoteTokenRecord` holds.
pub ghost struct RemoteTokenRecordView {
    pub id: Option<Seq<char>>,
    pub tenant_url: Option<Seq<char>>,
    pub access_token: Option<Seq<char>>,
    pub created_at: Option<Seq<char>>,
    pub updated_at: Option<Seq<char>>,
    pub portal_url: Option<Seq<char>>,
    pub ban_status: Option<Seq<char>>,
    pub portal_info: Option<PortalInfoView>,
    pub email_note: Option<Seq<char>>,
    pub tag_name: Option<Seq<char>>,
    pub tag_color: Option<Seq<char>>,
    pub auth_session: Option<Seq<char>>,
    pub suspensions: Option<Seq<char>>,
    pub skip_check: Option<bool>,
    pub balance_color_mode: Option<Seq<char>>,
    pub tenant_url_alt: Option<Seq<char>>,
    pub access_token_alt: Option<Seq<char>>,
    pub auth_session_alt: Option<Seq<char>>,
    pub email_note_alt: Option<Seq<char>>,
    pub ban_status_alt: Option<Seq<char>>,
}

impl View for RemoteTokenRecord {
    type V = RemoteTokenRecordView;

    open spec fn view(&self) -> RemoteTokenRecordView {
        RemoteTokenRecordView {
            id: opt_text(self.id),
            tenant_url: opt_text(self.tenant_url),
            access_token: opt_text(self.access_token),
            created_at: opt_text(self.created_at),
            updated_at: opt_text(self.updated_at),
            portal_url: opt_text(self.portal_url),
            ban_status: opt_text(self.ban_status),
            portal_info: opt_portal(self.portal_info),
            email_note: opt_text(self.email_note),
            tag_name: opt_text(self.tag_name),
            tag_color: opt_text(self.tag_color),
            auth_session: opt_text(self.auth_session),
            suspensions: opt_text(self.suspensions),
            skip_check: self.skip_check,
            balance_color_mode: opt_text(self.balance_color_mode),
            tenant_url_alt: opt_text(self.tenant_url_alt),
            access_token_alt: opt_text(self.access_token_alt),
            auth_session_alt: opt_text(self.auth_session_alt),
            email_note_alt: opt_text(self.email_note_alt),
            ban_status_alt: opt_text(self.ban_status_alt),
        }
    }
}

impl DeepView for RemoteTokenRecord {
    type V = RemoteTokenRecordView;

    open spec fn deep_view(&self) -> RemoteTokenRecordView {
        self@
    }
}

/// The first required field that `remote` lacks, asked in the order id,
/// session, creation time. The session may come under either spelling.
pub open spec fn missing_field(remote: RemoteTokenRecordView) -> Option<RequiredField> {
    if remote.id is None {
        Some(RequiredField::Id)
    } else if first_present(remote.auth_session, remote.auth_session_alt) is None {
        Some(RequiredField::AuthSession)
    } else if remote.created_at is None {
        Some(RequiredField::CreatedAt)
    } else {
        None
    }
}

/// The local record that a complete remote record stands for. Where a field
/// has two spellings the canonical one wins. An absent endpoint or token is
/// empty, an absent update time is the creation time, an absent status is
/// `ACTIVE`, an absent check flag is off; the other fields stay as they are.
pub open spec fn normalized(remote: RemoteTokenRecordView) -> TokenRecordView
    recommends
        missing_field(remote) is None,
{
    TokenRecordView {
        id: remote.id->0,
        tenant_url: value_or(first_present(remote.tenant_url, remote.tenant_url_alt), Seq::empty()),
        access_token: value_or(
            first_present(remote.access_token, remote.access_token_alt),
            Seq::empty(),
        ),
        created_at: remote.created_at->0,
        updated_at: value_or(remote.updated_at, remote.created_at->0),
        portal_url: remote.portal_url,
        ban_status: value_or(first_present(remote.ban_status, remote.ban_status_alt), "ACTIVE"@),
        portal_info: remote.portal_info,
        email_note: first_present(remote.email_note, remote.email_note_alt),
        tag_name: remote.tag_name,
        tag_color: remote.tag_color,
        auth_session: first_present(remote.auth_session, remote.auth_session_alt)->0,
        suspensions: remote.suspensions,
        skip_check: value_or(remote.skip_check, false),
        balance_color_mode: remote.balance_color_mode,
    }
}

/// What normalising `remote` gives: its local record, or the field it lacks.
pub open spec fn normalize(remote: RemoteTokenRecordView) -> Result<
    TokenRecordView,
    MissingFieldError,
> {
    match missing_field(remote) {
        Some(field) => Err(MissingFieldError { field }),
        None => Ok(normalized(remote)),
    }
}

/// A copy of the preferred text where there is one, else of the fallback.
fn prefer(preferred: &Option<String>, fallback: &Option<String>) -> (chosen: Option<String>)
    ensures
        opt_text(chosen) == first_present(opt_text(*preferred), opt_text(*fallback)),
{
    match preferred {
        Some(text) => Some(text.clone()),
        None => fallback.clone(),
    }
}

/// A copy of optional portal information.
fn duplicate_portal(info: &Option<PortalInfo>) -> (copy: Option<PortalInfo>)
    ensures
        opt_portal(copy) == opt_portal(*info),
{
    match info {
        Some(p) => Some(p.duplicate()),
        None => None,
    }
}

impl RemoteTokenRecord {
    /// The local record for this remote one, with the defaults filled in, or
    /// the first required field that is missing.
    pub fn to_local_token(&self) -> (local: Result<TokenRecord, MissingFieldError>)
        ensures
            match local {
                Ok(record) => normalize(self@) == Ok::<TokenRecordView, MissingFieldError>(record@),
                Err(e) => normalize(self@) == Err::<TokenRecordView, MissingFieldError>(e),
            },
    {
        let id = match &self.id {
            Some(id) => id.clone(),
            None => {
                return Err(MissingFieldError { field: RequiredField::Id });
            },
        };
        let auth_session = match prefer(&self.auth_session, &self.auth_session_alt) {
            Some(session) => session,
            None => {
                return Err(MissingFieldError { field: RequiredField::AuthSession });
            },
        };
        let created_at = match &self.created_at {
            Some(created_at) => created_at.clone(),
            None => {
                return Err(MissingFieldError { field: RequiredField::CreatedAt });
            },
        };
        let tenant_url = match prefer(&self.tenant_url, &self.tenant_url_alt) {
            Some(url) => url,
            None => String::new(),
        };
        let access_token = match prefer(&self.access_token, &self.access_token_alt) {
            Some(token) => token,
            None => String::new(),
        };
        let email_note = prefer(&self.email_note, &self.email_note_alt);
        let updated_at = match &self.updated_at {
            Some(updated_at) => updated_at.clone(),
            None => created_at.clone(),
        };
        let ban_status = match prefer(&self.ban_status, &self.ban_status_alt) {
            Some(status) => status,
            None => "ACTIVE".to_string(),
        };
        let skip_check = match self.skip_check {
            Some(flag) => flag,
            None => false,
        };
        Ok(
            TokenRecord {
                id,
                tenant_url,
                access_token,
                created_at,
                updated_at,
                portal_url: self.portal_url.clone(),
                ban_status,
                portal_info: duplicate_portal(&self.portal_info),
                email_note,
                tag_name: self.tag_name.clone(),
                tag_color: self.tag_color.clone(),
                auth_session,
                suspensions: self.suspensions.clone(),
                skip_check,
                balance_color_mode: self.balance_color_mode.clone(),
            },
        )
    }
}

/// Whether some record of `store` was made from the session `session`.
pub open spec fn holds_session(store: Seq<TokenRecordView>, session: Seq<char>) -> bool {
    exists|i: int| 0 <= i < store.len() && (#[trigger] store[i]).auth_session == session
}

/// Whether some record of `store` has the id `id`.
pub open spec fn holds_id(store: Seq<TokenRecordView>, id: Seq<char>) -> bool {
    exists|i: int| 0 <= i < store.len() && (#[trigger] store[i]).id == id
}

/// Whether `i` is the place of the first record of `store` with the id `id`.
pub open spec fn is_first_with_id(store: Seq<TokenRecordView>, id: Seq<char>, i: int) -> bool {
    &&& 0 <= i < store.len()
    &&& store[i].id == id
    &&& forall|j: int| 0 <= j < i ==> (#[trigger] store[j]).id != id
}

/// The place of the first record of `store` with the id `id`, where there is
/// one.
pub open spec fn first_with_id(store: Seq<TokenRecordView>, id: Seq<char>) -> int {
    choose|i: int| is_first_with_id(store, id, i)
}

/// The store's invariant: no two records were made from the same session.
pub open spec fn sessions_unique(store: Seq<TokenRecordView>) -> bool {
    forall|i: int, j: int|
        0 <= i < j < store.len() ==> (#[trigger] store[i]).auth_session != (
        #[trigger] store[j]).auth_session
}

/// What adding `record` to `store` gives: the store with the record at its
/// end, or `DuplicateSession` where a record of the same session is there.
pub open spec fn add_outcome(store: Seq<TokenRecordView>, record: TokenRecordView) -> Result<
    Seq<TokenRecordView>,
    StoreError,
> {
    if holds_session(store, record.auth_session) {
        Err(StoreError::DuplicateSession)
    } else {
        Ok(store.push(record))
    }
}

/// What updating `store` with `record` gives: the store with `record` in the
/// place of the first record of its id, or `NotFound` where none has the id.
pub open spec fn update_outcome(store: Seq<TokenRecordView>, record: TokenRecordView) -> Result<
    Seq<TokenRecordView>,
    StoreError,
> {
    if holds_id(store, record.id) {
        Ok(store.update(first_with_id(store, record.id), record))
    } else {
        Err(StoreError::NotFound)
    }
}

/// The store without the records whose id is `id`.
pub open spec fn delete_outcome(store: Seq<TokenRecordView>, id: Seq<char>) -> Seq<
    TokenRecordView,
> {
    store.filter(|record: TokenRecordView| record.id != id)
}

/// Only one place can be the first with a given id.
pub proof fn lemma_first_with_id_is_unique(store: Seq<TokenRecordView>, id: Seq<char>, i: int)
    requires
        is_first_with_id(store, id, i),
    ensures
        first_with_id(store, id) == i,
        holds_id(store, id),
{
    let chosen = first_with_id(store, id);
    assert(is_first_with_id(store, id, chosen));
    if chosen < i {
        assert(store[chosen].id != id);
    } else if i < chosen {
        assert(store[i].id != id);
    }
}

/// Whether any of `tokens` was made from the session `session`.
pub fn has_session(tokens: &Vec<TokenRecord>, session: &String) -> (found: bool)
    ensures
        found == holds_session(tokens.deep_view(), session@),
{
    let mut i: usize = 0;
    while i < tokens.len()
        invariant
            i <= tokens.len(),
            forall|k: int| 0 <= k < i ==> (#[trigger] tokens.deep_view()[k]).auth_session != session@,
        decreases tokens.len() - i,
    {
        if tokens[i].auth_session == *session {
            assert(tokens.deep_view()[i as int].auth_session == session@);
            return true;
        }
        i += 1;
    }
    false
}

/// Appends `token` to `tokens`, unless a record made from the same session is
/// there already: then nothing changes and the answer is `DuplicateSession`.
pub fn add_token(tokens: &mut Vec<TokenRecord>, token: TokenRecord) -> (added: Result<
    (),
    StoreError,
>)
    ensures
        match added {
            Ok(_) => add_outcome(old(tokens).deep_view(), token@) == Ok::<
                Seq<TokenRecordView>,
                StoreError,
            >(final(tokens).deep_view()),
            Err(e) => add_outcome(old(tokens).deep_view(), token@) == Err::<
                Seq<TokenRecordView>,
                StoreError,
            >(e) && *final(tokens) == *old(tokens),
        },
        sessions_unique(old(tokens).deep_view()) ==> sessions_unique(final(tokens).deep_view()),
{
    if has_session(tokens, &token.auth_session) {
        return Err(StoreError::DuplicateSession);
    }
    tokens.push(token);
    assert(tokens.deep_view() =~= old(tokens).deep_view().push(token@));
    proof {
        if sessions_unique(old(tokens).deep_view()) {
            law_add_keeps_sessions_unique(old(tokens).deep_view(), token@);
        }
    }
    Ok(())
}

/// Puts `token` in the place of the first record that has its id; the other
/// records stay where they are. Where no record has the id nothing changes
/// and the answer is `NotFound`.
pub fn update_token(tokens: &mut Vec<TokenRecord>, token: TokenRecord) -> (updated: Result<
    (),
    StoreError,
>)
    ensures
        match updated {
            Ok(_) => update_outcome(old(tokens).deep_view(), token@) == Ok::<
                Seq<TokenRecordView>,
                StoreError,
            >(final(tokens).deep_view()),
            Err(e) => update_outcome(old(tokens).deep_view(), token@) == Err::<
                Seq<TokenRecordView>,
                StoreError,
            >(e) && *final(tokens) == *old(tokens),
        },
{
    let mut i: usize = 0;
    while i < tokens.len()
        invariant
            i <= tokens.len(),
            *tokens == *old(tokens),
            forall|k: int| 0 <= k < i ==> (#[trigger] tokens.deep_view()[k]).id != token@.id,
        decreases tokens.len() - i,
    {
        if tokens[i].id == token.id {
            assert(tokens.deep_view()[i as int].id == token@.id);
            tokens[i] = token;
            proof {
                lemma_first_with_id_is_unique(old(tokens).deep_view(), token@.id, i as int);
            }
            assert(tokens.deep_view() =~= old(tokens).deep_view().update(i as int, token@));
            return Ok(());
        }
        i += 1;
    }
    Err(StoreError::NotFound)
}

/// Removes every record whose id is `id`; the others keep their order.
/// Where no record has the id, nothing changes.
pub fn delete_token(tokens: &mut Vec<TokenRecord>, id: &String)
    ensures
        final(tokens).deep_view() == delete_outcome(old(tokens).deep_view(), id@),
        sessions_unique(old(tokens).deep_view()) ==> sessions_unique(final(tokens).deep_view()),
{
    let ghost keep = |record: TokenRecordView| record.id != id@;
    let mut source: Vec<TokenRecord> = Vec::new();
    std::mem::swap(tokens, &mut source);
    assert(source.deep_view() =~= old(tokens).deep_view());
    proof {
        reveal(Seq::filter);
        assert(source.deep_view().take(0) =~= Seq::<TokenRecordView>::empty());
    }
    for record in it: source
        invariant
            it.seq() == source@,
            keep == |record: TokenRecordView| record.id != id@,
            tokens.deep_view() == source.deep_view().take(it.index() as int).filter(keep),
    {
        proof {
            let n = it.index() as int;
            let prefix = source.deep_view().take(n + 1);
            assert(prefix.drop_last() =~= source.deep_view().take(n));
            assert(prefix.last() == record@);
            reveal(Seq::filter);
        }
        if record.id != *id {
            tokens.push(record);
            assert(tokens.deep_view() =~= source.deep_view().take(it.index() as int).filter(
                keep,
            ).push(record@));
        }
    }
    assert(source.deep_view().take(source.len() as int) =~= source.deep_view());
    proof {
        lemma_delete_outcome(old(tokens).deep_view(), id@);
    }
}

/// What the storage was found to hold.
#[derive(Debug, PartialEq, Eq)]
pub enum StoredContent {
    /// Nothing has been stored yet.
    Missing,
    /// The stored list of records.
    Records(Vec<TokenRecord>),
    /// Something that is no list of records; the text says why.
    Unreadable(String),
}

/// The records of a store that was read, and whether the storage has still
/// to be created.
#[derive(Debug, PartialEq, Eq)]
pub struct LoadedStore {
    pub tokens: Vec<TokenRecord>,
    pub initialise: bool,
}

/// What reading `content` gives: the records and whether the storage has to
/// be created, or `Corrupt` with the reason. Missing storage is an empty
/// store that has to be created; stored records are the store as it is.
pub open spec fn load_outcome(content: StoredContent) -> Result<
    (Seq<TokenRecordView>, bool),
    StoreError,
> {
    match content {
        StoredContent::Missing => Ok((Seq::empty(), true)),
        StoredContent::Records(records) => Ok((records.deep_view(), false)),
        StoredContent::Unreadable(reason) => Err(StoreError::Corrupt(reason)),
    }
}

/// The store that `content` stands for. Content that is no list of records
/// is refused, and no record is made up for it.
pub fn read_tokens(content: StoredContent) -> (loaded: Result<LoadedStore, StoreError>)
    ensures
        match loaded {
            Ok(store) => load_outcome(content) == Ok::<(Seq<TokenRecordView>, bool), StoreError>(
                (store.tokens.deep_view(), store.initialise),
            ),
            Err(e) => load_outcome(content) == Err::<(Seq<TokenRecordView>, bool), StoreError>(e),
        },
{
    match content {
        StoredContent::Missing => {
            let tokens: Vec<TokenRecord> = Vec::new();
            assert(tokens.deep_view() =~= Seq::<TokenRecordView>::empty());
            Ok(LoadedStore { tokens, initialise: true })
        },
        StoredContent::Records(records) => Ok(LoadedStore { tokens: records, initialise: false }),
        StoredContent::Unreadable(reason) => Err(StoreError::Corrupt(reason)),
    }
}

/// After a record was added, the store holds its session exactly once, at
/// the end, and refuses every further record of that session.
pub proof fn law_added_session_is_held_once(
    store: Seq<TokenRecordView>,
    record: TokenRecordView,
    again: TokenRecordView,
)
    requires
        add_outcome(store, record) is Ok,
        again.auth_session == record.auth_session,
    ensures
        ({
            let after = add_outcome(store, record)->Ok_0;
            &&& after.len() == store.len() + 1
            &&& holds_session(after, record.auth_session)
            &&& forall|i: int|
                0 <= i < after.len() && (#[trigger] after[i]).auth_session == record.auth_session
                    ==> i == store.len()
            &&& add_outcome(after, again) == Err::<Seq<TokenRecordView>, StoreError>(
                StoreError::DuplicateSession,
            )
        }),
{
    let after = store.push(record);
    assert(after[store.len() as int].auth_session == record.auth_session);
    assert forall|i: int|
        0 <= i < after.len() && (#[trigger] after[i]).auth_session
            == record.auth_session implies i == store.len() by {
        if i < store.len() {
            assert(store[i].auth_session == record.auth_session);
        }
    }
}

/// Adding a record keeps the sessions of the store distinct.
pub proof fn law_add_keeps_sessions_unique(store: Seq<TokenRecordView>, record: TokenRecordView)
    requires
        sessions_unique(store),
        add_outcome(store, record) is Ok,
    ensures
        sessions_unique(add_outcome(store, record)->Ok_0),
{
    let after = store.push(record);
    assert forall|i: int, j: int| 0 <= i < j < after.len() implies (#[trigger] after[i]).auth_session
        != (#[trigger] after[j]).auth_session by {
        if j == store.len() {
            assert(store[i].auth_session != record.auth_session);
        } else {
            assert(store[i].auth_session != store[j].auth_session);
        }
    }
}

/// An update with an id that no record has is refused.
pub proof fn law_update_of_absent_id_is_refused(
    store: Seq<TokenRecordView>,
    record: TokenRecordView,
)
    requires
        !holds_id(store, record.id),
    ensures
        update_outcome(store, record) == Err::<Seq<TokenRecordView>, StoreError>(
            StoreError::NotFound,
        ),
{
}

/// An update changes one place only: the first record of the id. The store
/// keeps its length, and every other record stays where it was.
pub proof fn law_update_replaces_in_place(store: Seq<TokenRecordView>, record: TokenRecordView)
    requires
        holds_id(store, record.id),
    ensures
        ({
            let after = update_outcome(store, record)->Ok_0;
            let place = first_with_id(store, record.id);
            &&& update_outcome(store, record) is Ok
            &&& is_first_with_id(store, record.id, place)
            &&& after.len() == store.len()
            &&& after[place] == record
            &&& forall|i: int| 0 <= i < store.len() && i != place ==> after[i] == store[i]
        }),
{
    lemma_some_place_is_first(store, record.id, store.len());
}

/// Where one of the first `n` records of `store` has the id, one of them is
/// the first to have it.
proof fn lemma_some_place_is_first(store: Seq<TokenRecordView>, id: Seq<char>, n: nat)
    requires
        n <= store.len(),
        exists|i: int| 0 <= i < n && (#[trigger] store[i]).id == id,
    ensures
        exists|i: int| is_first_with_id(store, id, i),
        is_first_with_id(store, id, first_with_id(store, id)),
    decreases n,
{
    if exists|i: int| 0 <= i < n - 1 && (#[trigger] store[i]).id == id {
        lemma_some_place_is_first(store, id, (n - 1) as nat);
    } else {
        assert(is_first_with_id(store, id, n - 1));
    }
}

/// An update keeps the sessions of the store distinct where the new record
/// keeps the session of the one it replaces, or brings one that is new.
pub proof fn law_update_keeps_sessions_unique(store: Seq<TokenRecordView>, record: TokenRecordView)
    requires
        sessions_unique(store),
        holds_id(store, record.id),
        store[first_with_id(store, record.id)].auth_session == record.auth_session
            || !holds_session(store, record.auth_session),
    ensures
        sessions_unique(update_outcome(store, record)->Ok_0),
{
    law_update_replaces_in_place(store, record);
    let place = first_with_id(store, record.id);
    let after = store.update(place, record);
    assert forall|i: int, j: int| 0 <= i < j < after.len() implies (#[trigger] after[i]).auth_session
        != (#[trigger] after[j]).auth_session by {
        assert(store[i].auth_session != store[j].auth_session);
        if i == place {
            assert(store[j].auth_session != record.auth_session);
        } else if j == place {
            assert(store[i].auth_session != record.auth_session);
        }
    }
}

/// Deleting keeps, in their order, exactly the records of another id.
pub proof fn lemma_delete_outcome(store: Seq<TokenRecordView>, id: Seq<char>)
    ensures
        delete_outcome(store, id).len() <= store.len(),
        !holds_id(delete_outcome(store, id), id),
        !holds_id(store, id) ==> delete_outcome(store, id) == store,
        forall|session: Seq<char>|
            holds_session(delete_outcome(store, id), session) ==> holds_session(store, session),
        sessions_unique(store) ==> sessions_unique(delete_outcome(store, id)),
    decreases store.len(),
{
    reveal(Seq::filter);
    let keep = |record: TokenRecordView| record.id != id;
    let after = delete_outcome(store, id);
    if store.len() > 0 {
        let front = store.drop_last();
        let front_after = delete_outcome(front, id);
        lemma_delete_outcome(front, id);
        if holds_id(after, id) {
            let i = choose|i: int| 0 <= i < after.len() && (#[trigger] after[i]).id == id;
            if i < front_after.len() {
                assert(front_after[i].id == id);
            }
        }
        if !holds_id(store, id) {
            assert(store.last().id != id);
            if holds_id(front, id) {
                let i = choose|i: int| 0 <= i < front.len() && (#[trigger] front[i]).id == id;
                assert(store[i].id == id);
            }
            assert(after =~= store);
        }
        assert forall|session: Seq<char>| holds_session(after, session) implies holds_session(
            store,
            session,
        ) by {
            let i = choose|i: int| 0 <= i < after.len() && (#[trigger] after[i]).auth_session == session;
            if i < front_after.len() {
                assert(front_after[i].auth_session == session);
                assert(holds_session(front, session));
                let k = choose|k: int|
                    0 <= k < front.len() && (#[trigger] front[k]).auth_session == session;
                assert(store[k].auth_session == session);
            } else {
                assert(store[store.len() - 1].auth_session == session);
            }
        }
        if sessions_unique(store) {
            assert forall|i: int, j: int| 0 <= i < j < front.len() implies (
            #[trigger] front[i]).auth_session != (#[trigger] front[j]).auth_session by {
                assert(store[i].auth_session != store[j].auth_session);
            }
            assert forall|i: int, j: int| 0 <= i < j < after.len() implies (
            #[trigger] after[i]).auth_session != (#[trigger] after[j]).auth_session by {
                if j < front_after.len() {
                    assert(front_after[i].auth_session != front_after[j].auth_session);
                } else {
                    assert(front_after[i].auth_session == after[i].auth_session);
                    assert(holds_session(front_after, after[i].auth_session));
                    assert(holds_session(front, after[i].auth_session));
                    let k = choose|k: int|
                        0 <= k < front.len() && (#[trigger] front[k]).auth_session
                            == after[i].auth_session;
                    assert(store[k].auth_session != store[store.len() - 1].auth_session);
                }
            }
        }
    }
}

/// Deleting an id that no record has leaves the store as it is.
pub proof fn law_delete_of_absent_id_changes_nothing(store: Seq<TokenRecordView>, id: Seq<char>)
    requires
        !holds_id(store, id),
    ensures
        delete_outcome(store, id) == store,
{
    lemma_delete_outcome(store, id);
}

/// Deleting twice is deleting once: after a delete no record has the id, so
/// a second delete finds nothing to remove.
pub proof fn law_delete_is_idempotent(store: Seq<TokenRecordView>, id: Seq<char>)
    ensures
        !holds_id(delete_outcome(store, id), id),
        delete_outcome(delete_outcome(store, id), id) == delete_outcome(store, id),
{
    lemma_delete_outcome(store, id);
    lemma_delete_outcome(delete_outcome(store, id), id);
}

/// Deleting keeps the sessions of the store distinct.
pub proof fn law_delete_keeps_sessions_unique(store: Seq<TokenRecordView>, id: Seq<char>)
    requires
        sessions_unique(store),
    ensures
        sessions_unique(delete_outcome(store, id)),
{
    lemma_delete_outcome(store, id);
}

/// Reading is stable: where the storage holds what a read gave, a second
/// read gives the same records and asks for nothing to be created.
pub proof fn law_reading_again_gives_the_same(content: StoredContent, written: StoredContent)
    requires
        load_outcome(content) is Ok,
        written is Records,
        written->Records_0.deep_view() == load_outcome(content)->Ok_0.0,
    ensures
        load_outcome(written) == Ok::<(Seq<TokenRecordView>, bool), StoreError>(
            (load_outcome(content)->Ok_0.0, false),
        ),
{
}

} // verus!
