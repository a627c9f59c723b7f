//! The registry of payload type tags and the classifier built on it.
//!
//! The numbers are agreed with the gateway and change with its version, so a
//! registry is a value: two tables from tag to meaning. The housekeeping table
//! holds the tags of the connection itself (hello, heartbeat, ping and pong,
//! registration); the domain table holds the tags of the manager interface.
//! The two are numbered independently. Where both know a tag, housekeeping
//! wins.

use vstd::prelude::*;

verus! {

/// The coarse meaning of a payload type tag.
#[derive(Clone, Copy, Debug, PartialEq, Eq, Structural)]
pub enum MessageKind {
    Request,
    Response,
    Event,
    Error,
    Heartbeat,
    Unrecognized,
}

/// The payloads that the engine produces or takes apart itself.
#[derive(Clone, Copy, Debug, PartialEq, Eq, Structural)]
pub enum PayloadSchema {
    HelloEvent,
    HeartbeatEvent,
    PingReq,
    PingRes,
    ErrorRes,
    OrderErrorEvent,
    ExecutionEvent,
    ManagerAuthReq,
    ManagerAuthRes,
    OrderDetailsRes,
    TraderListReq,
    TraderListRes,
    BalanceHistoryRes,
    TraderChangedEvent,
    TraderLogonEvent,
    TraderLogoutEvent,
    ManagerClosePositionReq,
}

impl PayloadSchema {
    /// The kind of message that carries this payload.
    pub open spec fn kind(self) -> MessageKind {
        match self {
            PayloadSchema::HelloEvent => MessageKind::Event,
            PayloadSchema::HeartbeatEvent => MessageKind::Heartbeat,
            PayloadSchema::PingReq => MessageKind::Heartbeat,
            PayloadSchema::PingRes => MessageKind::Heartbeat,
            PayloadSchema::ErrorRes => MessageKind::Error,
            PayloadSchema::OrderErrorEvent => MessageKind::Error,
            PayloadSchema::ExecutionEvent => MessageKind::Event,
            PayloadSchema::ManagerAuthReq => MessageKind::Request,
            PayloadSchema::ManagerAuthRes => MessageKind::Response,
            PayloadSchema::OrderDetailsRes => MessageKind::Response,
            PayloadSchema::TraderListReq => MessageKind::Request,
            PayloadSchema::TraderListRes => MessageKind::Response,
            PayloadSchema::BalanceHistoryRes => MessageKind::Response,
            PayloadSchema::TraderChangedEvent => MessageKind::Event,
            PayloadSchema::TraderLogonEvent => MessageKind::Event,
            PayloadSchema::TraderLogoutEvent => MessageKind::Event,
            PayloadSchema::ManagerClosePositionReq => MessageKind::Request,
        }
    }

    /// Whether the payload belongs to the connection itself rather than to
    /// the manager interface.
    pub open spec fn housekeeping(self) -> bool {
        self is HelloEvent || self is HeartbeatEvent || self is PingReq || self is PingRes
    }

    pub fn message_kind(self) -> (kind: MessageKind)
        ensures
            kind == self.kind(),
    {
        match self {
            PayloadSchema::HelloEvent => MessageKind::Event,
            PayloadSchema::HeartbeatEvent => MessageKind::Heartbeat,
            PayloadSchema::PingReq => MessageKind::Heartbeat,
            PayloadSchema::PingRes => MessageKind::Heartbeat,
            PayloadSchema::ErrorRes => MessageKind::Error,
            PayloadSchema::OrderErrorEvent => MessageKind::Error,
            PayloadSchema::ExecutionEvent => MessageKind::Event,
            PayloadSchema::ManagerAuthReq => MessageKind::Request,
            PayloadSchema::ManagerAuthRes => MessageKind::Response,
            PayloadSchema::OrderDetailsRes => MessageKind::Response,
            PayloadSchema::TraderListReq => MessageKind::Request,
            PayloadSchema::TraderListRes => MessageKind::Response,
            PayloadSchema::BalanceHistoryRes => MessageKind::Response,
            PayloadSchema::TraderChangedEvent => MessageKind::Event,
            PayloadSchema::TraderLogonEvent => MessageKind::Event,
            PayloadSchema::TraderLogoutEvent => MessageKind::Event,
            PayloadSchema::ManagerClosePositionReq => MessageKind::Request,
        }
    }

    pub fn is_housekeeping(self) -> (yes: bool)
        ensures
            yes == self.housekeeping(),
    {
        match self {
            PayloadSchema::HelloEvent => true,
            PayloadSchema::HeartbeatEvent => true,
            PayloadSchema::PingReq => true,
            PayloadSchema::PingRes => true,
            _ => false,
        }
    }
}

/// One line of a registry table.
#[derive(Clone, Copy, Debug, PartialEq, Eq, Structural)]
pub struct TagEntry {
    pub tag: u32,
    pub kind: MessageKind,
    pub schema: Option<PayloadSchema>,
}

impl TagEntry {
    /// The entry for a tag whose payload the engine knows.
    pub fn known(tag: u32, schema: PayloadSchema) -> (entry: TagEntry)
        ensures
            entry == (TagEntry { tag, kind: schema.kind(), schema: Some(schema) }),
    {
        TagEntry { tag, kind: schema.message_kind(), schema: Some(schema) }
    }

    /// The entry for a tag of which only the kind matters.
    pub fn other(tag: u32, kind: MessageKind) -> (entry: TagEntry)
        ensures
            entry == (TagEntry { tag, kind, schema: None }),
    {
        TagEntry { tag, kind, schema: None }
    }

    /// Whether the entry may stand in the housekeeping table (`true`) or the
    /// domain table (`false`): it names a kind, its schema is of that kind,
    /// and the schema belongs to that table.
    pub open spec fn valid_in(self, housekeeping: bool) -> bool {
        &&& self.kind != MessageKind::Unrecognized
        &&& self.schema matches Some(schema) ==> self.kind == schema.kind()
            && schema.housekeeping() == housekeeping
    }
}

/// Why two tables do not make a registry.
#[derive(Clone, Copy, Debug, PartialEq, Eq, Structural)]
pub enum RegistryError {
    /// An entry has no kind, a kind that contradicts its schema, or a schema
    /// of the other table.
    InvalidEntry,
    /// A table lists a tag twice.
    DuplicateTag,
    /// A table lists a schema twice.
    DuplicateSchema,
    /// A domain tag with a schema is also a housekeeping tag.
    ShadowedSchema,
    /// No tag for something the client sends or waits for itself: the ping
    /// request, the login request and response, the close-position request
    /// or the trader-list request.
    MissingSchema,
}

/// The first entry for `tag` at or after index `from`.
pub open spec fn find_from(table: Seq<TagEntry>, tag: u32, from: int) -> Option<TagEntry>
    decreases table.len() - from,
{
    if from < 0 || from >= table.len() {
        None
    } else if table[from].tag == tag {
        Some(table[from])
    } else {
        find_from(table, tag, from + 1)
    }
}

/// The tag of the first entry with `schema` at or after index `from`.
pub open spec fn find_schema_from(table: Seq<TagEntry>, schema: PayloadSchema, from: int)
    -> Option<u32>
    decreases table.len() - from,
{
    if from < 0 || from >= table.len() {
        None
    } else if table[from].schema == Some(schema) {
        Some(table[from].tag)
    } else {
        find_schema_from(table, schema, from + 1)
    }
}

pub open spec fn entries_valid(table: Seq<TagEntry>, housekeeping: bool) -> bool {
    forall|i: int| 0 <= i < table.len() ==> (#[trigger] table[i]).valid_in(housekeeping)
}

pub open spec fn tags_distinct(table: Seq<TagEntry>) -> bool {
    forall|i: int, j: int|
        0 <= i < j < table.len() ==> (#[trigger] table[i]).tag != (#[trigger] table[j]).tag
}

pub open spec fn schemas_distinct(table: Seq<TagEntry>) -> bool {
    forall|i: int, j: int|
        0 <= i < j < table.len() && (#[trigger] table[i]).schema is Some ==> table[i].schema
            != (#[trigger] table[j]).schema
}

pub open spec fn schemas_unshadowed(housekeeping: Seq<TagEntry>, domain: Seq<TagEntry>) -> bool {
    forall|j: int|
        0 <= j < domain.len() && (#[trigger] domain[j]).schema is Some ==> find_from(
            housekeeping,
            domain[j].tag,
            0,
        ) is None
}

pub open spec fn schemas_present(housekeeping: Seq<TagEntry>, domain: Seq<TagEntry>) -> bool {
    &&& find_schema_from(housekeeping, PayloadSchema::PingReq, 0) is Some
    &&& find_schema_from(domain, PayloadSchema::ManagerAuthReq, 0) is Some
    &&& find_schema_from(domain, PayloadSchema::ManagerAuthRes, 0) is Some
    &&& find_schema_from(domain, PayloadSchema::ManagerClosePositionReq, 0) is Some
    &&& find_schema_from(domain, PayloadSchema::TraderListReq, 0) is Some
}

/// What is wrong with a pair of tables, if anything; the first fault in the
/// order of `RegistryError` is reported.
pub open spec fn registry_fault(housekeeping: Seq<TagEntry>, domain: Seq<TagEntry>) -> Option<
    RegistryError,
> {
    if !entries_valid(housekeeping, true) || !entries_valid(domain, false) {
        Some(RegistryError::InvalidEntry)
    } else if !tags_distinct(housekeeping) || !tags_distinct(domain) {
        Some(RegistryError::DuplicateTag)
    } else if !schemas_distinct(housekeeping) || !schemas_distinct(domain) {
        Some(RegistryError::DuplicateSchema)
    } else if !schemas_unshadowed(housekeeping, domain) {
        Some(RegistryError::ShadowedSchema)
    } else if !schemas_present(housekeeping, domain) {
        Some(RegistryError::MissingSchema)
    } else {
        None
    }
}

/// The entry that decides about `tag`: housekeeping first, then domain.
pub open spec fn registry_entry(housekeeping: Seq<TagEntry>, domain: Seq<TagEntry>, tag: u32)
    -> Option<TagEntry> {
    match find_from(housekeeping, tag, 0) {
        Some(entry) => Some(entry),
        None => find_from(domain, tag, 0),
    }
}

/// The tag that carries `schema`.
pub open spec fn registry_tag(
    housekeeping: Seq<TagEntry>,
    domain: Seq<TagEntry>,
    schema: PayloadSchema,
) -> Option<u32> {
    if schema.housekeeping() {
        find_schema_from(housekeeping, schema, 0)
    } else {
        find_schema_from(domain, schema, 0)
    }
}

/// A registry of payload type tags. A value of this type is always free of
/// faults.
pub struct TagRegistry {
    housekeeping: Vec<TagEntry>,
    domain: Vec<TagEntry>,
}

fn find(table: &Vec<TagEntry>, tag: u32) -> (found: Option<TagEntry>)
    ensures
        found == find_from(table@, tag, 0),
{
    let mut i: usize = 0;
    while i < table.len()
        invariant
            i <= table@.len(),
            find_from(table@, tag, 0) == find_from(table@, tag, i as int),
        decreases table@.len() - i,
    {
        if table[i].tag == tag {
            return Some(table[i]);
        }
        i += 1;
    }
    None
}

fn schema_equal(a: Option<PayloadSchema>, b: PayloadSchema) -> (same: bool)
    ensures
        same == (a == Some(b)),
{
    match a {
        Some(schema) => schema == b,
        None => false,
    }
}

fn find_schema(table: &Vec<TagEntry>, schema: PayloadSchema) -> (found: Option<u32>)
    ensures
        found == find_schema_from(table@, schema, 0),
{
    let mut i: usize = 0;
    while i < table.len()
        invariant
            i <= table@.len(),
            find_schema_from(table@, schema, 0) == find_schema_from(table@, schema, i as int),
        decreases table@.len() - i,
    {
        if schema_equal(table[i].schema, schema) {
            return Some(table[i].tag);
        }
        i += 1;
    }
    None
}

fn check_entries(table: &Vec<TagEntry>, housekeeping: bool) -> (ok: bool)
    ensures
        ok == entries_valid(table@, housekeeping),
{
    let mut i: usize = 0;
    while i < table.len()
        invariant
            i <= table@.len(),
            forall|k: int| 0 <= k < i ==> (#[trigger] table@[k]).valid_in(housekeeping),
        decreases table@.len() - i,
    {
        let entry = table[i];
        if entry.kind == MessageKind::Unrecognized {
            return false;
        }
        match entry.schema {
            Some(schema) => {
                if schema.message_kind() != entry.kind || schema.is_housekeeping()
                    != housekeeping {
                    return false;
                }
            },
            None => {},
        }
        i += 1;
    }
    true
}

fn check_tags_distinct(table: &Vec<TagEntry>) -> (ok: bool)
    ensures
        ok == tags_distinct(table@),
{
    let mut j: usize = 0;
    while j < table.len()
        invariant
            j <= table@.len(),
            forall|a: int, b: int|
                0 <= a < b < j ==> (#[trigger] table@[a]).tag != (#[trigger] table@[b]).tag,
        decreases table@.len() - j,
    {
        let mut i: usize = 0;
        while i < j
            invariant
                i <= j < table@.len(),
                forall|a: int| 0 <= a < i ==> (#[trigger] table@[a]).tag != table@[j as int].tag,
            decreases j - i,
        {
            if table[i].tag == table[j].tag {
                return false;
            }
            i += 1;
        }
        j += 1;
    }
    true
}

fn check_schemas_distinct(table: &Vec<TagEntry>) -> (ok: bool)
    ensures
        ok == schemas_distinct(table@),
{
    let mut j: usize = 0;
    while j < table.len()
        invariant
            j <= table@.len(),
            forall|a: int, b: int|
                0 <= a < b < j && (#[trigger] table@[a]).schema is Some ==> table@[a].schema != (
                #[trigger] table@[b]).schema,
        decreases table@.len() - j,
    {
        let mut i: usize = 0;
        while i < j
            invariant
                i <= j < table@.len(),
                forall|a: int|
                    0 <= a < i && (#[trigger] table@[a]).schema is Some ==> table@[a].schema
                        != table@[j as int].schema,
            decreases j - i,
        {
            match table[i].schema {
                Some(schema) => {
                    if schema_equal(table[j].schema, schema) {
                        return false;
                    }
                },
                None => {},
            }
            i += 1;
        }
        j += 1;
    }
    true
}

fn check_unshadowed(housekeeping: &Vec<TagEntry>, domain: &Vec<TagEntry>) -> (ok: bool)
    ensures
        ok == schemas_unshadowed(housekeeping@, domain@),
{
    let mut j: usize = 0;
    while j < domain.len()
        invariant
            j <= domain@.len(),
            forall|k: int|
                0 <= k < j && (#[trigger] domain@[k]).schema is Some ==> find_from(
                    housekeeping@,
                    domain@[k].tag,
                    0,
                ) is None,
        decreases domain@.len() - j,
    {
        if domain[j].schema.is_some() {
            if find(housekeeping, domain[j].tag).is_some() {
                return false;
            }
        }
        j += 1;
    }
    true
}

impl TagRegistry {
    /// The housekeeping table.
    pub closed spec fn housekeeping(self) -> Seq<TagEntry> {
        self.housekeeping@
    }

    /// The domain table.
    pub closed spec fn domain(self) -> Seq<TagEntry> {
        self.domain@
    }

    /// Whether the tables are free of faults. Every registry that code can
    /// hold is.
    pub open spec fn sound(self) -> bool {
        registry_fault(self.housekeeping(), self.domain()) is None
    }

    #[verifier::type_invariant]
    spec fn faultless(self) -> bool {
        self.sound()
    }

    /// The entry that decides about `tag`, if any.
    pub open spec fn entry(self, tag: u32) -> Option<TagEntry> {
        registry_entry(self.housekeeping(), self.domain(), tag)
    }

    /// The kind of `tag`: that of its entry, or `Unrecognized` where it has
    /// none.
    pub open spec fn kind_of(self, tag: u32) -> MessageKind {
        match self.entry(tag) {
            Some(entry) => entry.kind,
            None => MessageKind::Unrecognized,
        }
    }

    /// The schema that `tag` selects, if any.
    pub open spec fn schema_of(self, tag: u32) -> Option<PayloadSchema> {
        match self.entry(tag) {
            Some(entry) => entry.schema,
            None => None,
        }
    }

    /// The tag that carries `schema`, if any.
    pub open spec fn tag_for(self, schema: PayloadSchema) -> Option<u32> {
        registry_tag(self.housekeeping(), self.domain(), schema)
    }

    /// Builds a registry from its two tables, or says what is wrong with
    /// them.
    pub fn new(housekeeping: Vec<TagEntry>, domain: Vec<TagEntry>) -> (r: Result<
        TagRegistry,
        RegistryError,
    >)
        ensures
            match registry_fault(housekeeping@, domain@) {
                Some(fault) => r == Err::<TagRegistry, RegistryError>(fault),
                None => r matches Ok(registry) && registry.housekeeping() == housekeeping@
                    && registry.domain() == domain@,
            },
    {
        if !check_entries(&housekeeping, true) || !check_entries(&domain, false) {
            return Err(RegistryError::InvalidEntry);
        }
        if !check_tags_distinct(&housekeeping) || !check_tags_distinct(&domain) {
            return Err(RegistryError::DuplicateTag);
        }
        if !check_schemas_distinct(&housekeeping) || !check_schemas_distinct(&domain) {
            return Err(RegistryError::DuplicateSchema);
        }
        if !check_unshadowed(&housekeeping, &domain) {
            return Err(RegistryError::ShadowedSchema);
        }
        if find_schema(&housekeeping, PayloadSchema::PingReq).is_none() || find_schema(
            &domain,
            PayloadSchema::ManagerAuthReq,
        ).is_none() || find_schema(&domain, PayloadSchema::ManagerAuthRes).is_none()
            || find_schema(&domain, PayloadSchema::ManagerClosePositionReq).is_none()
            || find_schema(&domain, PayloadSchema::TraderListReq).is_none() {
            return Err(RegistryError::MissingSchema);
        }
        Ok(TagRegistry { housekeeping, domain })
    }

    /// A copy of the registry.
    pub fn duplicate(&self) -> (copy: TagRegistry)
        ensures
            copy.housekeeping() == self.housekeeping(),
            copy.domain() == self.domain(),
    {
        proof {
            use_type_invariant(self);
        }
        let housekeeping = copy_table(&self.housekeeping);
        let domain = copy_table(&self.domain);
        TagRegistry { housekeeping, domain }
    }

    /// Looks a tag up: housekeeping first, then domain.
    pub fn lookup(&self, payload_type: u32) -> (found: Option<TagEntry>)
        ensures
            found == self.entry(payload_type),
    {
        match find(&self.housekeeping, payload_type) {
            Some(entry) => Some(entry),
            None => find(&self.domain, payload_type),
        }
    }

    /// Classifies a tag. Never decodes anything, and answers for every tag.
    pub fn classify(&self, payload_type: u32) -> (kind: MessageKind)
        ensures
            kind == self.kind_of(payload_type),
            kind is Unrecognized <==> self.entry(payload_type) is None,
    {
        proof {
            use_type_invariant(self);
            lemma_entry_valid(self.housekeeping@, self.domain@, payload_type);
        }
        match self.lookup(payload_type) {
            Some(entry) => entry.kind,
            None => MessageKind::Unrecognized,
        }
    }

    /// The schema that a tag selects, if any.
    pub fn schema(&self, payload_type: u32) -> (schema: Option<PayloadSchema>)
        ensures
            schema == self.schema_of(payload_type),
    {
        match self.lookup(payload_type) {
            Some(entry) => entry.schema,
            None => None,
        }
    }

    /// The tag that carries a schema, if the registry names one. That tag
    /// selects the schema again.
    pub fn tag_of(&self, schema: PayloadSchema) -> (tag: Option<u32>)
        ensures
            tag == self.tag_for(schema),
            tag matches Some(t) ==> self.schema_of(t) == Some(schema) && self.kind_of(t)
                == schema.kind(),
    {
        proof {
            use_type_invariant(self);
            lemma_tag_selects_schema(self.housekeeping@, self.domain@, schema);
        }
        if schema.is_housekeeping() {
            find_schema(&self.housekeeping, schema)
        } else {
            find_schema(&self.domain, schema)
        }
    }

    /// The tag of the ping request. Every registry has one, and it is
    /// classified as heartbeat traffic.
    pub fn ping_request_tag(&self) -> (tag: u32)
        ensures
            self.tag_for(PayloadSchema::PingReq) == Some(tag),
            self.schema_of(tag) == Some(PayloadSchema::PingReq),
            self.kind_of(tag) == MessageKind::Heartbeat,
    {
        proof {
            use_type_invariant(self);
        }
        match self.tag_of(PayloadSchema::PingReq) {
            Some(tag) => tag,
            None => 0,
        }
    }

    /// The tag of the close-position request. Every registry has one.
    pub fn close_position_request_tag(&self) -> (tag: u32)
        ensures
            self.tag_for(PayloadSchema::ManagerClosePositionReq) == Some(tag),
            self.schema_of(tag) == Some(PayloadSchema::ManagerClosePositionReq),
            self.kind_of(tag) == MessageKind::Request,
    {
        proof {
            use_type_invariant(self);
        }
        match self.tag_of(PayloadSchema::ManagerClosePositionReq) {
            Some(tag) => tag,
            None => 0,
        }
    }

    /// The tag of the trader-list request. Every registry has one.
    pub fn trader_list_request_tag(&self) -> (tag: u32)
        ensures
            self.tag_for(PayloadSchema::TraderListReq) == Some(tag),
            self.schema_of(tag) == Some(PayloadSchema::TraderListReq),
            self.kind_of(tag) == MessageKind::Request,
    {
        proof {
            use_type_invariant(self);
        }
        match self.tag_of(PayloadSchema::TraderListReq) {
            Some(tag) => tag,
            None => 0,
        }
    }

    /// The tag of the login request. Every registry has one.
    pub fn auth_request_tag(&self) -> (tag: u32)
        ensures
            self.tag_for(PayloadSchema::ManagerAuthReq) == Some(tag),
            self.schema_of(tag) == Some(PayloadSchema::ManagerAuthReq),
            self.kind_of(tag) == MessageKind::Request,
    {
        proof {
            use_type_invariant(self);
        }
        match self.tag_of(PayloadSchema::ManagerAuthReq) {
            Some(tag) => tag,
            None => 0,
        }
    }
}

fn copy_table(table: &Vec<TagEntry>) -> (copy: Vec<TagEntry>)
    ensures
        copy@ == table@,
{
    let mut copy: Vec<TagEntry> = Vec::new();
    let mut i: usize = 0;
    while i < table.len()
        invariant
            i <= table@.len(),
            copy@ == table@.subrange(0, i as int),
        decreases table@.len() - i,
    {
        copy.push(table[i]);
        assert(copy@ =~= table@.subrange(0, i + 1));
        i += 1;
    }
    assert(copy@ =~= table@);
    copy
}

/// What `find_from` finds is an entry of the table for that tag, and it finds
/// nothing only where no entry is for that tag.
pub proof fn lemma_find_from(table: Seq<TagEntry>, tag: u32, from: int)
    requires
        0 <= from,
    ensures
        match find_from(table, tag, from) {
            Some(entry) => entry.tag == tag && exists|i: int|
                from <= i < table.len() && table[i] == entry,
            None => forall|i: int| from <= i < table.len() ==> (#[trigger] table[i]).tag != tag,
        },
    decreases table.len() - from,
{
    if from < table.len() && table[from].tag != tag {
        lemma_find_from(table, tag, from + 1);
    }
}

/// In a table of distinct tags, the entry at any index is the one found for
/// its tag.
pub proof fn lemma_find_distinct(table: Seq<TagEntry>, index: int, from: int)
    requires
        tags_distinct(table),
        0 <= from <= index < table.len(),
    ensures
        find_from(table, table[index].tag, from) == Some(table[index]),
    decreases index - from,
{
    if from < index {
        lemma_find_distinct(table, index, from + 1);
    }
}

/// What `find_schema_from` finds is the tag of an entry with that schema.
pub proof fn lemma_find_schema_from(table: Seq<TagEntry>, schema: PayloadSchema, from: int)
    requires
        0 <= from,
    ensures
        match find_schema_from(table, schema, from) {
            Some(tag) => exists|i: int|
                from <= i < table.len() && table[i].schema == Some(schema) && table[i].tag == tag,
            None => forall|i: int|
                from <= i < table.len() ==> (#[trigger] table[i]).schema != Some(schema),
        },
    decreases table.len() - from,
{
    if from < table.len() && table[from].schema != Some(schema) {
        lemma_find_schema_from(table, schema, from + 1);
    }
}

/// The entry that decides about a tag is valid: it has a kind other than
/// `Unrecognized`, and its schema is of that kind.
pub proof fn lemma_entry_valid(housekeeping: Seq<TagEntry>, domain: Seq<TagEntry>, tag: u32)
    requires
        registry_fault(housekeeping, domain) is None,
    ensures
        registry_entry(housekeeping, domain, tag) matches Some(entry) ==> entry.tag == tag
            && entry.kind != MessageKind::Unrecognized && (entry.schema matches Some(schema)
            ==> entry.kind == schema.kind()),
{
    lemma_find_from(housekeeping, tag, 0);
    lemma_find_from(domain, tag, 0);
}

/// The tag found for a schema selects that schema and is of its kind.
pub proof fn lemma_tag_selects_schema(
    housekeeping: Seq<TagEntry>,
    domain: Seq<TagEntry>,
    schema: PayloadSchema,
)
    requires
        registry_fault(housekeeping, domain) is None,
    ensures
        registry_tag(housekeeping, domain, schema) matches Some(tag) ==> registry_entry(
            housekeeping,
            domain,
            tag,
        ) matches Some(entry) && entry.schema == Some(schema) && entry.kind == schema.kind(),
        (schema is PingReq || schema is ManagerAuthReq || schema is ManagerAuthRes
            || schema is ManagerClosePositionReq || schema is TraderListReq) ==> registry_tag(
            housekeeping,
            domain,
            schema,
        ) is Some,
{
    if schema.housekeeping() {
        lemma_find_schema_from(housekeeping, schema, 0);
        if find_schema_from(housekeeping, schema, 0) is Some {
            let i = choose|i: int|
                0 <= i < housekeeping.len() && housekeeping[i].schema == Some(schema)
                    && housekeeping[i].tag == find_schema_from(housekeeping, schema, 0)->0;
            lemma_find_distinct(housekeeping, i, 0);
            assert(housekeeping[i].valid_in(true));
        }
    } else {
        lemma_find_schema_from(domain, schema, 0);
        if find_schema_from(domain, schema, 0) is Some {
            let j = choose|j: int|
                0 <= j < domain.len() && domain[j].schema == Some(schema) && domain[j].tag
                    == find_schema_from(domain, schema, 0)->0;
            lemma_find_distinct(domain, j, 0);
            assert(domain[j].valid_in(false));
            assert(find_from(housekeeping, domain[j].tag, 0) is None);
        }
    }
}

/// A tag has a kind other than `Unrecognized` exactly if one of the tables
/// lists it.
pub proof fn lemma_unrecognized_iff_unlisted(
    housekeeping: Seq<TagEntry>,
    domain: Seq<TagEntry>,
    tag: u32,
)
    requires
        registry_fault(housekeeping, domain) is None,
    ensures
        registry_entry(housekeeping, domain, tag) is None <==> (forall|i: int|
            0 <= i < housekeeping.len() ==> (#[trigger] housekeeping[i]).tag != tag) && (forall|
            j: int,
        | 0 <= j < domain.len() ==> (#[trigger] domain[j]).tag != tag),
{
    lemma_find_from(housekeeping, tag, 0);
    lemma_find_from(domain, tag, 0);
}

/// Housekeeping decides first: a tag that the housekeeping table lists has
/// the kind given there, whatever the domain table says about the same
/// number.
pub proof fn lemma_housekeeping_first(
    housekeeping: Seq<TagEntry>,
    domain: Seq<TagEntry>,
    index: int,
)
    requires
        registry_fault(housekeeping, domain) is None,
        0 <= index < housekeeping.len(),
    ensures
        registry_entry(housekeeping, domain, housekeeping[index].tag) == Some(
            housekeeping[index],
        ),
{
    lemma_find_distinct(housekeeping, index, 0);
}

} // verus!
