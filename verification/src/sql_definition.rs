//! The details of a database object, opened by a click with the secondary modifier on its
//! name in a statement.
//!
//! While the modifier is held, the editor asks about the identifier under the pointer and
//! underlines a hit. The click that follows offers the target of the hit to the handler of
//! documents. The provider remembers the details of the last hit for it, and the target is
//! an address of a scheme that no other program opens.

use vstd::prelude::*;
use vstd::utf8::encode_utf8;
use crate::text::{copy_optional, same};

verus! {

/// Whether `c` can stand in the scheme of an address.
pub open spec fn is_scheme_char(c: char) -> bool {
    ('a' <= c <= 'z') || ('A' <= c <= 'Z') || ('0' <= c <= '9') || c == '+' || c == '-' || c == '.'
}

/// How many characters at the start of a text can stand in a scheme.
pub open spec fn scheme_run(text: Seq<char>) -> int
    decreases text.len(),
{
    if text.len() == 0 || !is_scheme_char(text[0]) {
        0
    } else {
        1 + scheme_run(text.drop_first())
    }
}

/// The scheme of an address: what stands before a colon that follows its first characters.
pub open spec fn scheme_in(text: Seq<char>) -> Option<Seq<char>> {
    let n = scheme_run(text);
    if n < text.len() && text[n] == ':' {
        Some(text.take(n))
    } else {
        None
    }
}

/// Whether `c` is an unreserved character of an address.
pub open spec fn is_unreserved(c: char) -> bool {
    ('a' <= c <= 'z') || ('A' <= c <= 'Z') || ('0' <= c <= '9') || c == '-' || c == '.' || c == '_'
        || c == '~'
}

/// A scheme and a name, with `://` between them.
pub open spec fn scheme_and_name(scheme: Seq<char>, name: Seq<char>) -> Seq<char> {
    scheme + seq![':', '/', '/'] + name
}

/// Whether a text is a scheme and a name, with `://` between them: the scheme starts with
/// a letter, and the name is made of unreserved characters.
pub open spec fn is_scheme_and_name(text: Seq<char>) -> bool {
    exists|scheme: Seq<char>, name: Seq<char>|
        {
            &&& text == #[trigger] scheme_and_name(scheme, name)
            &&& scheme.len() > 0
            &&& ('a' <= scheme[0] <= 'z') || ('A' <= scheme[0] <= 'Z')
            &&& forall|i: int| 0 <= i < scheme.len() ==> is_scheme_char(#[trigger] scheme[i])
            &&& forall|i: int| 0 <= i < name.len() ==> is_unreserved(#[trigger] name[i])
        }
}

/// Whether a text is an address, as RFC 3986 defines URI references.
pub uninterp spec fn is_uri(text: Seq<char>) -> bool;

/// `lsp_types::Uri`, parsed from a text by `from_str`, and its `scheme`: nothing where the
/// text is no address, else its scheme where it has one. Whether a text is an address
/// depends on the text alone, and a scheme with a name behind `://` is one. The scheme is
/// what stands before the colon, as it is written. The parser takes texts of up to
/// `i32::MAX` bytes.
#[verifier::external_body]
fn parse_uri(text: &str) -> (r: Option<Option<String>>)
    requires
        encode_utf8(text@).len() <= i32::MAX,
    ensures
        r is Some <==> is_uri(text@),
        r is Some ==> r->0.deep_view() == scheme_in(text@),
        is_scheme_and_name(text@) ==> r is Some,
{
    match text.parse::<lsp_types::Uri>() {
        Ok(uri) => Some(uri.scheme().map(|scheme| scheme.as_str().to_owned())),
        Err(_) => None,
    }
}

/// An address.
#[derive(Debug)]
pub struct Uri {
    text: String,
    scheme: Option<String>,
}

impl View for Uri {
    type V = Seq<char>;

    closed spec fn view(&self) -> Seq<char> {
        self.text@
    }
}

impl Uri {
    #[verifier::type_invariant]
    spec fn scheme_is_known(self) -> bool {
        self.scheme.deep_view() == scheme_in(self.text@)
    }

    /// The address that a text is, if it is one.
    pub fn parse(text: &str) -> (r: Option<Uri>)
        requires
            encode_utf8(text@).len() <= i32::MAX,
        ensures
            r is Some <==> is_uri(text@),
            r is Some ==> r->0@ == text@,
            is_scheme_and_name(text@) ==> r is Some,
    {
        match parse_uri(text) {
            Some(scheme) => Some(Uri { text: text.to_owned(), scheme }),
            None => None,
        }
    }

    /// The text of the address.
    pub fn as_str(&self) -> (r: &str)
        ensures
            r@ == self@,
    {
        self.text.as_str()
    }

    /// The scheme of the address, as it is written.
    pub fn scheme(&self) -> (r: Option<&String>)
        ensures
            r.deep_view() == scheme_in(self@),
    {
        proof {
            use_type_invariant(self);
        }
        match &self.scheme {
            Some(scheme) => Some(scheme),
            None => None,
        }
    }
}

impl Clone for Uri {
    fn clone(&self) -> (r: Uri)
        ensures
            r@ == self@,
    {
        proof {
            use_type_invariant(self);
        }
        Uri { text: self.text.clone(), scheme: copy_optional(&self.scheme) }
    }
}

/// The scheme of addresses that open the details of a database object. It is none that a
/// browser or the platform opens.
pub const SQL_OBJECT_DETAILS_SCHEME: &'static str = "navop-sql-object";

/// The scheme of addresses that open the details of a database object.
pub open spec fn object_details_scheme() -> Seq<char> {
    SQL_OBJECT_DETAILS_SCHEME@
}

/// Whether an address opens the details of a database object.
pub fn is_object_details_uri(uri: &Uri) -> (b: bool)
    ensures
        b == (scheme_in(uri@) == Some(object_details_scheme())),
{
    match uri.scheme() {
        Some(scheme) => same(scheme.as_str(), SQL_OBJECT_DETAILS_SCHEME),
        None => false,
    }
}

/// The address that stands for the details that the provider remembers.
pub open spec fn object_details_address() -> Seq<char> {
    "navop-sql-object://details"@
}

pub proof fn lemma_scheme_run(text: Seq<char>, n: int)
    requires
        0 <= n <= text.len(),
        forall|i: int| 0 <= i < n ==> is_scheme_char(#[trigger] text[i]),
        n < text.len() ==> !is_scheme_char(text[n]),
    ensures
        scheme_run(text) == n,
    decreases text.len(),
{
    if n > 0 {
        let rest = text.drop_first();
        assert(is_scheme_char(text[0]));
        assert forall|i: int| 0 <= i < n - 1 implies is_scheme_char(#[trigger] rest[i]) by {
            assert(rest[i] == text[i + 1]);
        }
        lemma_scheme_run(rest, n - 1);
    }
}

/// The address of the details is one, and has the scheme of the details.
proof fn lemma_details_address()
    ensures
        is_scheme_and_name(object_details_address()),
        scheme_in(object_details_address()) == Some(object_details_scheme()),
{
    reveal_strlit("navop-sql-object://details");
    reveal_strlit("navop-sql-object");
    let text = object_details_address();
    let scheme = object_details_scheme();
    let name = seq!['d', 'e', 't', 'a', 'i', 'l', 's'];
    assert(text =~= scheme_and_name(scheme, name));
    lemma_scheme_run(text, 16);
    assert(text.take(16) =~= scheme);
}

/// The address that stands for the details that the provider remembers.
pub fn object_details_uri() -> (r: Uri)
    ensures
        r@ == object_details_address(),
        scheme_in(r@) == Some(object_details_scheme()),
{
    proof {
        lemma_details_address();
        reveal_strlit("navop-sql-object://details");
        vstd::utf8::is_ascii_chars_encode_utf8("navop-sql-object://details"@);
    }
    Uri::parse("navop-sql-object://details").unwrap()
}

/// A place in a text: line and character, counted from zero.
#[derive(Clone, Copy, PartialEq, Eq, Structural, Debug)]
pub struct LspPosition {
    pub line: u32,
    pub character: u32,
}

/// A range of a text.
#[derive(Clone, Copy, PartialEq, Eq, Structural, Debug)]
pub struct LspRange {
    pub start: LspPosition,
    pub end: LspPosition,
}

/// A link from a range of the text to a target.
#[derive(Debug)]
pub struct LocationLink {
    /// The range that is underlined.
    pub origin_selection_range: Option<LspRange>,
    pub target_uri: Uri,
    pub target_range: LspRange,
    pub target_selection_range: LspRange,
}

/// The details of a database object: where its name stands in the text, in bytes, and
/// what is shown of it.
#[derive(Debug)]
pub struct SqlObjectDetails {
    pub start: usize,
    pub end: usize,
    pub markdown: String,
}

/// Model of [`SqlObjectDetails`].
#[verifier::ext_equal]
pub struct SqlObjectDetailsModel {
    pub start: usize,
    pub end: usize,
    pub markdown: Seq<char>,
}

impl DeepView for SqlObjectDetails {
    type V = SqlObjectDetailsModel;

    open spec fn deep_view(&self) -> SqlObjectDetailsModel {
        SqlObjectDetailsModel { start: self.start, end: self.end, markdown: self.markdown@ }
    }
}

/// An object that was found under the pointer: its details, and the range of its name.
#[derive(Debug)]
pub struct ResolvedObject {
    pub details: SqlObjectDetails,
    pub range: LspRange,
}

/// What objects are looked up in: a snapshot of the schema.
#[derive(Debug)]
pub struct SqlHoverSources<Schema> {
    pub schema: Schema,
}

/// The provider of links to the details of database objects. It looks them up in the schema
/// as it was last refreshed, and remembers the details of the last hit for the click that
/// follows.
#[derive(Debug)]
pub struct DefaultSqlDefinitionProvider<Schema> {
    sources: SqlHoverSources<Schema>,
    pending: Option<SqlObjectDetails>,
}

/// The link for an object that was found: its target is the address of the details.
pub open spec fn links_to(link: LocationLink, object: ResolvedObject) -> bool {
    &&& link.origin_selection_range == Some(object.range)
    &&& link.target_uri@ == object_details_address()
    &&& link.target_range == object.range
    &&& link.target_selection_range == object.range
}

/// What comes of a lookup that found `found`: a hit gives a link, and its details are
/// remembered; a miss gives none, and nothing stays remembered.
pub open spec fn taken<Schema>(
    before: DefaultSqlDefinitionProvider<Schema>,
    after: DefaultSqlDefinitionProvider<Schema>,
    found: Option<ResolvedObject>,
    link: Option<LocationLink>,
) -> bool {
    &&& after.schema_of() == before.schema_of()
    &&& match found {
        Some(object) => {
            &&& after.remembered() == Some(object.details.deep_view())
            &&& link matches Some(link) && links_to(link, object)
        },
        None => link is None && after.remembered() is None,
    }
}

/// Whether `resolve` finds details at an offset of a text, in a schema, and `position` takes
/// their start and end to the range: what is found is an object with them.
pub open spec fn finds<
    Schema,
    F: Fn(&str, usize, &Schema) -> Option<SqlObjectDetails>,
    P: Fn(&str, usize) -> LspPosition,
>(
    schema: Schema,
    text: &str,
    offset: usize,
    resolve: F,
    position: P,
    found: Option<ResolvedObject>,
) -> bool {
    match found {
        Some(object) => {
            &&& call_ensures(resolve, (text, offset, &schema), Some(object.details))
            &&& call_ensures(position, (text, object.details.start), object.range.start)
            &&& call_ensures(position, (text, object.details.end), object.range.end)
        },
        None => call_ensures(resolve, (text, offset, &schema), None::<SqlObjectDetails>),
    }
}

/// What comes of a lookup at an offset of a text: what `resolve` finds there in the schema
/// of the provider is taken, with the range from the position of its start to that of its
/// end.
pub open spec fn probed<
    Schema,
    F: Fn(&str, usize, &Schema) -> Option<SqlObjectDetails>,
    P: Fn(&str, usize) -> LspPosition,
>(
    before: DefaultSqlDefinitionProvider<Schema>,
    after: DefaultSqlDefinitionProvider<Schema>,
    text: &str,
    offset: usize,
    resolve: F,
    position: P,
    link: Option<LocationLink>,
) -> bool {
    exists|found: Option<ResolvedObject>|
        #[trigger] finds(before.schema_of(), text, offset, resolve, position, found) && taken(
            before,
            after,
            found,
            link,
        )
}

/// Whether the lookup can be made: `resolve` can be called at the offset of the text, and
/// `position` at the start and the end of whatever it finds.
pub open spec fn can_probe<
    Schema,
    F: Fn(&str, usize, &Schema) -> Option<SqlObjectDetails>,
    P: Fn(&str, usize) -> LspPosition,
>(schema: Schema, text: &str, offset: usize, resolve: F, position: P) -> bool {
    &&& call_requires(resolve, (text, offset, &schema))
    &&& forall|details: SqlObjectDetails|
        #[trigger] call_ensures(resolve, (text, offset, &schema), Some(details)) ==> call_requires(
            position,
            (text, details.start),
        ) && call_requires(position, (text, details.end))
}

/// What comes of refreshing the schema: what is remembered stays.
pub open spec fn refreshed<Schema>(
    before: DefaultSqlDefinitionProvider<Schema>,
    after: DefaultSqlDefinitionProvider<Schema>,
    schema: Schema,
) -> bool {
    after.schema_of() == schema && after.remembered() == before.remembered()
}

/// What comes of handing over what is remembered: nothing is any more.
pub open spec fn handed_over<Schema>(
    before: DefaultSqlDefinitionProvider<Schema>,
    after: DefaultSqlDefinitionProvider<Schema>,
) -> bool {
    after.remembered() is None && after.schema_of() == before.schema_of()
}

impl<Schema> DefaultSqlDefinitionProvider<Schema> {
    /// The snapshot of the schema.
    pub closed spec fn schema_of(self) -> Schema {
        self.sources.schema
    }

    /// The details that are remembered for the next click.
    pub closed spec fn remembered(self) -> Option<SqlObjectDetailsModel> {
        self.pending.deep_view()
    }

    /// A provider that remembers nothing.
    pub fn new(sources: SqlHoverSources<Schema>) -> (r: DefaultSqlDefinitionProvider<Schema>)
        ensures
            r.schema_of() == sources.schema,
            r.remembered() is None,
    {
        DefaultSqlDefinitionProvider { sources, pending: None }
    }

    /// The snapshot of the schema that objects are looked up in.
    pub fn schema(&self) -> (r: &Schema)
        ensures
            *r == self.schema_of(),
    {
        &self.sources.schema
    }

    /// Takes a new snapshot of the schema: objects are looked up in it from then on.
    pub fn refresh_schema(&mut self, schema: Schema)
        ensures
            refreshed(*old(self), *final(self), schema),
    {
        self.sources.schema = schema;
    }

    /// Takes what was found under the pointer. A hit gives a link, and its details are
    /// remembered for the click that follows. A miss gives none, and nothing stays
    /// remembered, so that the click keeps its usual meaning.
    pub fn take_found(&mut self, found: Option<ResolvedObject>) -> (r: Option<LocationLink>)
        ensures
            taken(*old(self), *final(self), found, r),
    {
        match found {
            Some(object) => {
                let ResolvedObject { details, range } = object;
                let link = LocationLink {
                    origin_selection_range: Some(range),
                    target_uri: object_details_uri(),
                    target_range: range,
                    target_selection_range: range,
                };
                self.pending = Some(details);
                Some(link)
            },
            None => {
                self.pending = None;
                None
            },
        }
    }

    /// Looks up the object at an offset of a text with `resolve`, in the schema as it is
    /// now, and takes what was found. `position` gives the place of a byte in the text.
    pub fn probe_object_details<
        F: Fn(&str, usize, &Schema) -> Option<SqlObjectDetails>,
        P: Fn(&str, usize) -> LspPosition,
    >(&mut self, text: &str, offset: usize, resolve: F, position: P) -> (r: Option<LocationLink>)
        requires
            can_probe(old(self).schema_of(), text, offset, resolve, position),
        ensures
            probed(*old(self), *final(self), text, offset, resolve, position, r),
    {
        let found = match resolve(text, offset, &self.sources.schema) {
            Some(details) => {
                let start = position(text, details.start);
                let end = position(text, details.end);
                Some(ResolvedObject { details, range: LspRange { start, end } })
            },
            None => None,
        };
        assert(finds(self.schema_of(), text, offset, resolve, position, found));
        self.take_found(found)
    }

    /// The links for the place under the pointer: one for a hit, none for a miss.
    pub fn definitions<
        F: Fn(&str, usize, &Schema) -> Option<SqlObjectDetails>,
        P: Fn(&str, usize) -> LspPosition,
    >(&mut self, text: &str, offset: usize, resolve: F, position: P) -> (r: Vec<LocationLink>)
        requires
            can_probe(old(self).schema_of(), text, offset, resolve, position),
        ensures
            r.len() <= 1,
            probed(
                *old(self),
                *final(self),
                text,
                offset,
                resolve,
                position,
                if r.len() > 0 {
                    Some(r@[0])
                } else {
                    None
                },
            ),
    {
        let mut links: Vec<LocationLink> = Vec::new();
        if let Some(link) = self.probe_object_details(text, offset, resolve, position) {
            links.push(link);
        }
        links
    }

    /// The details of the last hit. They are taken: one hover opens one window.
    pub fn take_pending_details(&mut self) -> (r: Option<SqlObjectDetails>)
        ensures
            r.deep_view() == old(self).remembered(),
            handed_over(*old(self), *final(self)),
    {
        self.pending.take()
    }
}

/// A refresh reaches the lookups after it: they look in the refreshed schema, give a link
/// exactly where an object is found in it, and leave it as it is.
pub proof fn law_refresh_reaches_lookups<
    Schema,
    F: Fn(&str, usize, &Schema) -> Option<SqlObjectDetails>,
    P: Fn(&str, usize) -> LspPosition,
>(
    before: DefaultSqlDefinitionProvider<Schema>,
    fresh: DefaultSqlDefinitionProvider<Schema>,
    after: DefaultSqlDefinitionProvider<Schema>,
    schema: Schema,
    text: &str,
    offset: usize,
    resolve: F,
    position: P,
    link: Option<LocationLink>,
)
    requires
        refreshed(before, fresh, schema),
        probed(fresh, after, text, offset, resolve, position, link),
    ensures
        after.schema_of() == schema,
        exists|found: Option<ResolvedObject>|
            #[trigger] finds(schema, text, offset, resolve, position, found) && (link is Some
                <==> found is Some) && taken(fresh, after, found, link),
{
    let found = choose|found: Option<ResolvedObject>|
        #[trigger] finds(fresh.schema_of(), text, offset, resolve, position, found) && taken(
            fresh,
            after,
            found,
            link,
        );
    assert(finds(schema, text, offset, resolve, position, found));
}

/// A step that a provider takes: a lookup that found an object or not, the handing over of
/// the details, or a refresh of the schema.
pub enum ProviderStep {
    Probe(Option<ResolvedObject>),
    Take,
    Refresh,
}

/// Whether a provider goes from one state to the other in a step.
pub open spec fn steps_to<Schema>(
    before: DefaultSqlDefinitionProvider<Schema>,
    step: ProviderStep,
    after: DefaultSqlDefinitionProvider<Schema>,
) -> bool {
    match step {
        ProviderStep::Probe(found) => exists|link: Option<LocationLink>|
            taken(before, after, found, link),
        ProviderStep::Take => handed_over(before, after),
        ProviderStep::Refresh => refreshed(before, after, after.schema_of()),
    }
}

/// The states that a provider goes through in a row of steps: it remembers nothing at first.
pub open spec fn is_run<Schema>(
    states: Seq<DefaultSqlDefinitionProvider<Schema>>,
    steps: Seq<ProviderStep>,
) -> bool {
    &&& states.len() == steps.len() + 1
    &&& states[0].remembered() is None
    &&& forall|i: int|
        0 <= i < steps.len() ==> steps_to(states[i], #[trigger] steps[i], states[i + 1])
}

/// Whether the details are those of the hit at the step `k`, and nothing was looked up or
/// handed over between it and the step `i`.
pub open spec fn hit_pending(
    steps: Seq<ProviderStep>,
    details: SqlObjectDetailsModel,
    k: int,
    i: int,
) -> bool {
    &&& 0 <= k < i <= steps.len()
    &&& steps[k] matches ProviderStep::Probe(Some(object)) && object.details.deep_view() == details
    &&& forall|j: int| k < j < i ==> (#[trigger] steps[j]) is Refresh
}

/// What a provider remembers after any row of steps: the details of the last lookup, where
/// that was a hit and nothing was handed over since, and nothing otherwise.
pub proof fn law_last_hit_is_remembered<Schema>(
    states: Seq<DefaultSqlDefinitionProvider<Schema>>,
    steps: Seq<ProviderStep>,
    details: SqlObjectDetailsModel,
    i: int,
)
    requires
        is_run(states, steps),
        0 <= i <= steps.len(),
    ensures
        states[i].remembered() == Some(details) <==> exists|k: int|
            #[trigger] hit_pending(steps, details, k, i),
    decreases i,
{
    if i > 0 {
        law_last_hit_is_remembered(states, steps, details, i - 1);
        assert(steps_to(states[i - 1], steps[i - 1], states[i]));
        match steps[i - 1] {
            ProviderStep::Probe(found) => {
                if states[i].remembered() == Some(details) {
                    assert(hit_pending(steps, details, i - 1, i));
                }
            },
            ProviderStep::Take => {},
            ProviderStep::Refresh => {
                if states[i].remembered() == Some(details) {
                    let k = choose|k: int| #[trigger] hit_pending(steps, details, k, i - 1);
                    assert(hit_pending(steps, details, k, i));
                }
                if exists|k: int| #[trigger] hit_pending(steps, details, k, i) {
                    let k = choose|k: int| #[trigger] hit_pending(steps, details, k, i);
                    assert(hit_pending(steps, details, k, i - 1));
                }
            },
        }
        if exists|k: int| #[trigger] hit_pending(steps, details, k, i) {
            let k = choose|k: int| #[trigger] hit_pending(steps, details, k, i);
            if k < i - 1 {
                assert(steps[i - 1] is Refresh);
            }
        }
    }
}

/// One hit opens one window. Of two steps that hand details over, the later one hands over
/// those of a hit after the earlier one, or none; and nothing is remembered after it.
pub proof fn law_one_hit_one_window<Schema>(
    states: Seq<DefaultSqlDefinitionProvider<Schema>>,
    steps: Seq<ProviderStep>,
    details: SqlObjectDetailsModel,
    i: int,
    j: int,
)
    requires
        is_run(states, steps),
        0 <= i < j < steps.len(),
        steps[i] is Take,
        steps[j] is Take,
    ensures
        states[j].remembered() == Some(details) <==> exists|k: int|
            i < k && #[trigger] hit_pending(steps, details, k, j),
        states[j + 1].remembered() is None,
{
    law_last_hit_is_remembered(states, steps, details, j);
    assert(steps_to(states[j], steps[j], states[j + 1]));
    if states[j].remembered() == Some(details) {
        let k = choose|k: int| #[trigger] hit_pending(steps, details, k, j);
        if k < i {
            assert(steps[i] is Refresh);
        }
        assert(k != i);
    }
}

} // verus!
