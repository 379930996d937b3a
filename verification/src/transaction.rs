//! The transaction engine: grouped operations, placeholders, correlation.
//!
//! A caller accumulates an ordered list of planned operations; each create
//! is handed a placeholder reference immediately, before any network call,
//! so later operations in the same group can embed it as a reference
//! value. The engine serializes the list into an ordered wire list,
//! substituting each placeholder where it appears, and — once the ordered
//! response list is back — pairs response entry `i` with planned operation
//! `i`. Positional alignment is the only correlation mechanism the
//! protocol offers, so it is stated for every entry.

use vstd::prelude::*;
use vstd::string::{StrSliceExecFns, StringExecFns};

use crate::error::Error;
use crate::ident::fresh_placeholder_urn;
use crate::request::Method;
use crate::strutil::str_eq;
use crate::urls::opt_view;

verus! {

/// The atomicity of a grouped exchange: independent entries with partial
/// failure allowed, or all-or-nothing.
#[derive(Debug, Clone, Copy, PartialEq, Eq, Structural)]
pub enum GroupMode {
    Batch,
    Transaction,
}

/// One reference value embedded in a resource payload: either a literal
/// reference, or a placeholder standing for the identity another create in
/// the same group will receive.
#[derive(Debug, Clone)]
pub enum RefSlot {
    Literal(String),
    Placeholder(String),
}

/// The reference text a slot serializes to: a placeholder serializes to
/// its canonical placeholder URN, resolved server-side, never rewritten
/// locally.
pub open spec fn ref_view(r: RefSlot) -> Seq<char> {
    match r {
        RefSlot::Literal(s) => s@,
        RefSlot::Placeholder(u) => u@,
    }
}

/// A resource as the engine sees it: its type, identities and embedded
/// reference values, plus an opaque payload remainder that the engine
/// carries through untouched. Validation of the payload is the codec's
/// business, not the engine's.
#[derive(Debug, Clone)]
pub struct PlannedResource {
    pub resource_type: String,
    pub id: Option<String>,
    pub version_id: Option<String>,
    /// The reference values embedded in the payload, in payload order.
    pub references: Vec<RefSlot>,
    /// The opaque remainder of the payload.
    pub content: String,
}

/// A resource on the wire: as planned, with every placeholder substituted
/// by its URN text.
#[derive(Debug, Clone)]
pub struct WireResource {
    pub resource_type: String,
    pub id: Option<String>,
    pub version_id: Option<String>,
    pub references: Vec<String>,
    pub content: String,
}

/// Whether a wire resource is the planned resource with its placeholders
/// substituted.
pub open spec fn wire_matches(w: WireResource, p: PlannedResource) -> bool {
    &&& w.resource_type@ == p.resource_type@
    &&& opt_view(w.id) == opt_view(p.id)
    &&& opt_view(w.version_id) == opt_view(p.version_id)
    &&& w.references@.len() == p.references@.len()
    &&& (forall|i: int|
        0 <= i < w.references@.len() ==> w.references@[i]@ == ref_view(#[trigger] p.references@[i]))
    &&& w.content@ == p.content@
}

/// Whether two wire resources carry the same values.
pub open spec fn wire_eq(a: WireResource, b: WireResource) -> bool {
    &&& a.resource_type@ == b.resource_type@
    &&& opt_view(a.id) == opt_view(b.id)
    &&& opt_view(a.version_id) == opt_view(b.version_id)
    &&& a.references@.len() == b.references@.len()
    &&& (forall|i: int|
        0 <= i < a.references@.len() ==> a.references@[i]@ == #[trigger] b.references@[i]@)
    &&& a.content@ == b.content@
}

/// One planned operation of a group, in caller order.
#[derive(Debug, Clone)]
pub enum PlannedOperation {
    /// Create the resource; `placeholder` is its placeholder URN, usable
    /// as a reference value by later operations of the same group.
    Create { resource: PlannedResource, placeholder: String },
    /// Read one resource by type and identity.
    Read { resource_type: String, id: String },
    /// Update the resource in place; with `if_match`, an optimistic lock
    /// on its version identifier.
    Update { resource: PlannedResource, if_match: bool },
    /// Delete one resource by type and identity.
    Delete { resource_type: String, id: String },
}

/// One wire-level request descriptor of the group.
#[derive(Debug, Clone)]
pub struct TransactionEntry {
    pub method: Method,
    /// The relative URL of the entry's request.
    pub url: String,
    /// The optimistic-lock header value, for locked updates.
    pub if_match: Option<String>,
    /// The placeholder URN of a create's own entry.
    pub full_url: Option<String>,
    /// The substituted resource payload, where the operation carries one.
    pub resource: Option<WireResource>,
}

/// Whether a wire entry is the serialization of a planned operation:
/// method, relative URL, lock header, placeholder and substituted payload
/// all as the operation prescribes.
pub open spec fn entry_matches(e: TransactionEntry, op: PlannedOperation) -> bool {
    match op {
        PlannedOperation::Create { resource, placeholder } => {
            &&& e.method == Method::Post
            &&& e.url@ == resource.resource_type@
            &&& e.if_match is None
            &&& (e.full_url matches Some(u) && u@ == placeholder@)
            &&& (e.resource matches Some(w) && wire_matches(w, resource))
        },
        PlannedOperation::Read { resource_type, id } => {
            &&& e.method == Method::Get
            &&& e.url@ == resource_type@ + "/"@ + id@
            &&& e.if_match is None
            &&& e.full_url is None
            &&& e.resource is None
        },
        PlannedOperation::Update { resource, if_match } => {
            &&& e.method == Method::Put
            &&& (resource.id matches Some(id) && e.url@ == resource.resource_type@ + "/"@ + id@)
            &&& if if_match {
                resource.version_id matches Some(v) && (e.if_match matches Some(m) && m@ == "W/\""@
                    + v@ + "\""@)
            } else {
                e.if_match is None
            }
            &&& e.full_url is None
            &&& (e.resource matches Some(w) && wire_matches(w, resource))
        },
        PlannedOperation::Delete { resource_type, id } => {
            &&& e.method == Method::Delete
            &&& e.url@ == resource_type@ + "/"@ + id@
            &&& e.if_match is None
            &&& e.full_url is None
            &&& e.resource is None
        },
    }
}

/// Whether a planned operation can be serialized: an update names the
/// resource's identity, and a locked update its version identifier.
pub open spec fn op_wf(op: PlannedOperation) -> bool {
    match op {
        PlannedOperation::Update { resource, if_match } => resource.id is Some && (if_match
            ==> resource.version_id is Some),
        _ => true,
    }
}

/// Substitute the placeholders of a payload's reference values.
fn substitute_references(refs: &Vec<RefSlot>) -> (r: Vec<String>)
    ensures
        r@.len() == refs@.len(),
        forall|i: int| 0 <= i < r@.len() ==> r@[i]@ == ref_view(#[trigger] refs@[i]),
{
    let mut out: Vec<String> = Vec::new();
    let n = refs.len();
    for i in 0..n
        invariant
            n == refs.len(),
            out@.len() == i,
            forall|j: int| 0 <= j < i ==> out@[j]@ == ref_view(#[trigger] refs@[j]),
    {
        let text = match &refs[i] {
            RefSlot::Literal(s) => s.clone(),
            RefSlot::Placeholder(u) => u.clone(),
        };
        out.push(text);
    }
    out
}

/// Substitute a whole resource for the wire.
fn substitute_resource(p: &PlannedResource) -> (r: WireResource)
    ensures
        wire_matches(r, *p),
{
    WireResource {
        resource_type: p.resource_type.clone(),
        id: p.id.clone(),
        version_id: p.version_id.clone(),
        references: substitute_references(&p.references),
        content: p.content.clone(),
    }
}

/// Join a resource type and an identity into a relative URL.
fn relative_url(resource_type: &str, id: &str) -> (r: String)
    ensures
        r@ == resource_type@ + "/"@ + id@,
{
    let joined = resource_type.to_owned().concat("/").concat(id);
    proof {
        assert(joined@ =~= resource_type@ + "/"@ + id@);
    }
    joined
}

/// An ordered group of planned operations, submitted as one atomic
/// exchange.
#[derive(Debug, Clone)]
pub struct BatchTransaction {
    pub mode: GroupMode,
    pub operations: Vec<PlannedOperation>,
}

impl BatchTransaction {
    /// Well-formedness: every accumulated operation can be serialized.
    pub open spec fn wf(&self) -> bool {
        forall|i: int| 0 <= i < self.operations@.len() ==> op_wf(#[trigger] self.operations@[i])
    }

    /// An empty group with the given atomicity.
    pub fn new(mode: GroupMode) -> (r: BatchTransaction)
        ensures
            r.wf(),
            r.mode == mode,
            r.operations@.len() == 0,
    {
        BatchTransaction { mode, operations: Vec::new() }
    }

    /// Plan a create and return its placeholder reference immediately,
    /// before any network call, so later operations of this group can
    /// embed it as a reference value.
    pub fn create(&mut self, resource: PlannedResource) -> (r: String)
        requires
            old(self).wf(),
        ensures
            final(self).wf(),
            final(self).mode == old(self).mode,
            final(self).operations@.len() == old(self).operations@.len() + 1,
            final(self).operations@.subrange(0, old(self).operations@.len() as int) == old(
                self,
            ).operations@,
            (final(self).operations@.last() matches PlannedOperation::Create {
                resource: res,
                placeholder: p,
            } && res == resource && p@ == r@),
            r@.len() == 45,
            r@.take(9) == "urn:uuid:"@,
    {
        let placeholder = fresh_placeholder_urn();
        let handed_out = placeholder.clone();
        self.operations.push(PlannedOperation::Create { resource, placeholder });
        handed_out
    }

    /// Plan a read of one resource.
    pub fn read(&mut self, resource_type: String, id: String)
        requires
            old(self).wf(),
        ensures
            final(self).wf(),
            final(self).mode == old(self).mode,
            final(self).operations@ == old(self).operations@.push(
                PlannedOperation::Read { resource_type, id },
            ),
    {
        self.operations.push(PlannedOperation::Read { resource_type, id });
    }

    /// Plan an update. A resource without an identity cannot be updated;
    /// an optimistic-locked update needs the resource's version
    /// identifier. Both are caller errors, reported before any network
    /// call, and leave the group unchanged.
    pub fn update(&mut self, resource: PlannedResource, if_match: bool) -> (r: Result<(), Error>)
        requires
            old(self).wf(),
        ensures
            final(self).wf(),
            final(self).mode == old(self).mode,
            match r {
                Ok(()) => {
                    &&& resource.id is Some
                    &&& (if_match ==> resource.version_id is Some)
                    &&& final(self).operations@ == old(self).operations@.push(
                        PlannedOperation::Update { resource, if_match },
                    )
                },
                Err(e) => {
                    &&& final(self).operations@ == old(self).operations@
                    &&& if resource.id is None {
                        e == Error::MissingId
                    } else {
                        if_match && resource.version_id is None && e == Error::MissingVersionId
                    }
                },
            },
    {
        if resource.id.is_none() {
            return Err(Error::MissingId);
        }
        if if_match && resource.version_id.is_none() {
            return Err(Error::MissingVersionId);
        }
        self.operations.push(PlannedOperation::Update { resource, if_match });
        Ok(())
    }

    /// Plan a delete of one resource.
    pub fn delete(&mut self, resource_type: String, id: String)
        requires
            old(self).wf(),
        ensures
            final(self).wf(),
            final(self).mode == old(self).mode,
            final(self).operations@ == old(self).operations@.push(
                PlannedOperation::Delete { resource_type, id },
            ),
    {
        self.operations.push(PlannedOperation::Delete { resource_type, id });
    }

    /// Serialize the group into its ordered wire list: entry `i` is the
    /// serialization of planned operation `i`, for every `i`. Order is
    /// preserved end-to-end; nothing reorders the list.
    pub fn build_entries(&self) -> (r: Vec<TransactionEntry>)
        requires
            self.wf(),
        ensures
            r@.len() == self.operations@.len(),
            forall|i: int|
                0 <= i < r@.len() ==> entry_matches(r@[i], #[trigger] self.operations@[i]),
    {
        let mut out: Vec<TransactionEntry> = Vec::new();
        let n = self.operations.len();
        for i in 0..n
            invariant
                n == self.operations.len(),
                self.wf(),
                out@.len() == i,
                forall|j: int|
                    0 <= j < i ==> entry_matches(out@[j], #[trigger] self.operations@[j]),
        {
            let entry = match &self.operations[i] {
                PlannedOperation::Create { resource, placeholder } => TransactionEntry {
                    method: Method::Post,
                    url: resource.resource_type.clone(),
                    if_match: None,
                    full_url: Some(placeholder.clone()),
                    resource: Some(substitute_resource(resource)),
                },
                PlannedOperation::Read { resource_type, id } => TransactionEntry {
                    method: Method::Get,
                    url: relative_url(resource_type.as_str(), id.as_str()),
                    if_match: None,
                    full_url: None,
                    resource: None,
                },
                PlannedOperation::Update { resource, if_match } => {
                    let id = match &resource.id {
                        Some(id) => id.clone(),
                        None => {
                            // Excluded by well-formedness: updates carry
                            // an identity.
                            proof {
                                assert(false);
                            }
                            String::new()
                        },
                    };
                    let lock = if *if_match {
                        match &resource.version_id {
                            Some(v) => {
                                let quoted = "W/\"".to_owned().concat(v.as_str()).concat("\"");
                                proof {
                                    assert(quoted@ =~= "W/\""@ + v@ + "\""@);
                                }
                                Some(quoted)
                            },
                            None => {
                                // Excluded by well-formedness: locked
                                // updates carry a version identifier.
                                proof {
                                    assert(false);
                                }
                                None
                            },
                        }
                    } else {
                        None
                    };
                    TransactionEntry {
                        method: Method::Put,
                        url: relative_url(resource.resource_type.as_str(), id.as_str()),
                        if_match: lock,
                        full_url: None,
                        resource: Some(substitute_resource(resource)),
                    }
                },
                PlannedOperation::Delete { resource_type, id } => TransactionEntry {
                    method: Method::Delete,
                    url: relative_url(resource_type.as_str(), id.as_str()),
                    if_match: None,
                    full_url: None,
                    resource: None,
                },
            };
            out.push(entry);
        }
        out
    }
}

/// Whether a character is a decimal digit.
pub open spec fn is_digit(c: char) -> bool {
    48 <= c as int <= 57
}

/// The numeric value of a decimal digit.
pub open spec fn digit_val(c: char) -> int {
    c as int - 48
}

/// The maximal prefix of decimal digits.
pub open spec fn spec_digit_prefix(s: Seq<char>) -> Seq<char>
    decreases s.len(),
{
    if s.len() == 0 || !is_digit(s[0]) {
        Seq::empty()
    } else {
        seq![s[0]] + spec_digit_prefix(s.drop_first())
    }
}

/// The numeric value of a sequence of decimal digits.
pub open spec fn spec_num_val(ds: Seq<char>) -> int
    decreases ds.len(),
{
    if ds.len() == 0 {
        0
    } else {
        spec_num_val(ds.drop_last()) * 10 + digit_val(ds.last())
    }
}

/// The status code at the front of a status text: the numeric value of its
/// maximal digit prefix; `None` when the text starts with no digit or the
/// value does not fit a status code.
pub open spec fn spec_parse_status(s: Seq<char>) -> Option<u16> {
    let ds = spec_digit_prefix(s);
    if ds.len() == 0 {
        None
    } else if spec_num_val(ds) > u16::MAX {
        None
    } else {
        Some(spec_num_val(ds) as u16)
    }
}

/// When the first `i` characters are digits, the digit prefix is those
/// characters followed by the digit prefix of the rest.
proof fn lemma_digit_prefix_skip(s: Seq<char>, i: int)
    requires
        0 <= i <= s.len(),
        forall|j: int| 0 <= j < i ==> is_digit(s[j]),
    ensures
        spec_digit_prefix(s) == s.take(i) + spec_digit_prefix(s.skip(i)),
    decreases i,
{
    if i == 0 {
        assert(s.skip(0) =~= s);
        assert(s.take(0) + spec_digit_prefix(s) =~= spec_digit_prefix(s));
    } else {
        lemma_digit_prefix_skip(s, i - 1);
        assert(s.skip(i - 1).drop_first() =~= s.skip(i));
        assert(s.skip(i - 1)[0] == s[i - 1]);
        assert(spec_digit_prefix(s.skip(i - 1)) == seq![s[i - 1]] + spec_digit_prefix(s.skip(i)));
        assert(s.take(i - 1) + (seq![s[i - 1]] + spec_digit_prefix(s.skip(i))) =~= s.take(i)
            + spec_digit_prefix(s.skip(i)));
    }
}

/// A scan that stopped at a non-digit: the digit prefix is the scanned
/// characters.
proof fn lemma_digit_prefix_found(s: Seq<char>, i: int)
    requires
        0 <= i < s.len(),
        forall|j: int| 0 <= j < i ==> is_digit(s[j]),
        !is_digit(s[i]),
    ensures
        spec_digit_prefix(s) == s.take(i),
{
    lemma_digit_prefix_skip(s, i);
    assert(spec_digit_prefix(s.skip(i)) =~= Seq::<char>::empty());
    assert(s.take(i) + Seq::<char>::empty() =~= s.take(i));
}

/// A scan that exhausted the text: the digit prefix is the whole text.
proof fn lemma_digit_prefix_all(s: Seq<char>)
    requires
        forall|j: int| 0 <= j < s.len() ==> is_digit(s[j]),
    ensures
        spec_digit_prefix(s) == s,
{
    lemma_digit_prefix_skip(s, s.len() as int);
    assert(spec_digit_prefix(s.skip(s.len() as int)) =~= Seq::<char>::empty());
    assert(s.take(s.len() as int) + Seq::<char>::empty() =~= s);
}

/// The value of a digit sequence never shrinks as it grows to the right.
proof fn lemma_num_val_monotone(ds: Seq<char>, i: int)
    requires
        forall|j: int| 0 <= j < ds.len() ==> is_digit(ds[j]),
        0 <= i <= ds.len(),
    ensures
        spec_num_val(ds) >= spec_num_val(ds.take(i)),
        spec_num_val(ds) >= 0,
    decreases ds.len(),
{
    if ds.len() == 0 {
        assert(ds.take(i) =~= ds);
    } else {
        lemma_num_val_monotone(ds.drop_last(), if i < ds.len() {
            i
        } else {
            ds.len() - 1
        });
        if i < ds.len() {
            assert(ds.drop_last().take(i) =~= ds.take(i));
        } else {
            assert(ds.take(i) =~= ds);
        }
    }
}

/// Parse the status code at the front of a status text.
pub fn parse_status_code(s: &str) -> (r: Option<u16>)
    ensures
        r == spec_parse_status(s@),
{
    let n = s.unicode_len();
    let mut val: u64 = 0;
    let mut over: bool = false;
    let mut i: usize = 0;
    while i < n
        invariant
            n == s@.len(),
            0 <= i <= n,
            forall|j: int| 0 <= j < i ==> is_digit(s@[j]),
            !over ==> val == spec_num_val(s@.take(i as int)) && val <= u16::MAX,
            over ==> spec_num_val(s@.take(i as int)) > u16::MAX,
        decreases n - i,
    {
        let c = s.get_char(i);
        let cu = c as u32;
        if cu < 48 || cu > 57 {
            proof {
                lemma_digit_prefix_found(s@, i as int);
            }
            if i == 0 {
                return None;
            } else if over {
                return None;
            } else {
                return Some(val as u16);
            }
        }
        proof {
            assert(s@.take(i + 1).drop_last() =~= s@.take(i as int));
            assert(s@.take(i + 1).last() == s@[i as int]);
        }
        let d = (cu - 48) as u64;
        if !over {
            let grown = val * 10 + d;
            if grown > u16::MAX as u64 {
                over = true;
            } else {
                val = grown;
            }
        } else {
            proof {
                let pre = spec_num_val(s@.take(i as int));
                assert(spec_num_val(s@.take(i + 1)) == pre * 10 + digit_val(s@[i as int]));
                assert(pre * 10 >= pre) by (nonlinear_arith)
                    requires
                        pre >= 0,
                ;
            }
        }
        i = i + 1;
    }
    proof {
        lemma_digit_prefix_all(s@);
        assert(s@.take(i as int) =~= s@);
    }
    if i == 0 {
        None
    } else if over {
        None
    } else {
        Some(val as u16)
    }
}

/// One entry of the ordered response list of a grouped exchange.
#[derive(Debug, Clone)]
pub struct ResponseEntry {
    /// The entry's own embedded status text, such as `201 Created`.
    pub status: String,
    /// The server-assigned location of the affected resource, if any.
    pub location: Option<String>,
    /// The entry's full URL, if any.
    pub full_url: Option<String>,
    /// The returned resource payload, if any.
    pub resource: Option<WireResource>,
}

/// The outcome the engine yields for one planned operation.
#[derive(Debug, Clone)]
pub enum EntryOutcome {
    /// The operation succeeded: its status, the server-assigned identity
    /// where the response names one, and the returned resource where the
    /// response carries one.
    Succeeded { status: u16, identity: Option<String>, resource: Option<WireResource> },
    /// The operation failed with this status (surfaced per entry in
    /// independent mode only).
    Failed { status: u16 },
}

/// The status code of a response entry.
pub open spec fn entry_status(e: ResponseEntry) -> Option<u16> {
    spec_parse_status(e.status@)
}

/// Whether a response entry reports success.
pub open spec fn entry_success(e: ResponseEntry) -> bool {
    entry_status(e) matches Some(st) && 200 <= st < 300
}

/// The server-assigned identity a response entry names: its full URL
/// when present, else its location, else nothing.
pub open spec fn entry_identity(e: ResponseEntry) -> Option<Seq<char>> {
    match e.full_url {
        Some(u) => Some(u@),
        None => match e.location {
            Some(l) => Some(l@),
            None => None,
        },
    }
}

/// Whether an outcome is the right reading of a response entry.
pub open spec fn outcome_matches(o: EntryOutcome, e: ResponseEntry) -> bool {
    match entry_status(e) {
        Some(st) => if 200 <= st < 300 {
            &&& (o matches EntryOutcome::Succeeded { status, identity, resource } && {
                &&& status == st
                &&& opt_view(identity) == entry_identity(e)
                &&& match (resource, e.resource) {
                    (Some(a), Some(b)) => wire_eq(a, b),
                    (None, None) => true,
                    _ => false,
                }
            })
        } else {
            o == EntryOutcome::Failed { status: st }
        },
        None => false,
    }
}

/// Clone a vector of strings, value for value.
fn clone_string_vec(v: &Vec<String>) -> (r: Vec<String>)
    ensures
        r@.len() == v@.len(),
        forall|i: int| 0 <= i < r@.len() ==> r@[i]@ == #[trigger] v@[i]@,
{
    let mut out: Vec<String> = Vec::new();
    let n = v.len();
    for i in 0..n
        invariant
            n == v.len(),
            out@.len() == i,
            forall|j: int| 0 <= j < i ==> out@[j]@ == #[trigger] v@[j]@,
    {
        out.push(v[i].clone());
    }
    out
}

/// Clone an optional string, value for value.
fn clone_opt_string(o: &Option<String>) -> (r: Option<String>)
    ensures
        opt_view(r) == opt_view(*o),
{
    match o {
        Some(s) => Some(s.clone()),
        None => None,
    }
}

/// Clone a wire resource, value for value.
fn clone_wire(w: &WireResource) -> (r: WireResource)
    ensures
        wire_eq(r, *w),
{
    WireResource {
        resource_type: w.resource_type.clone(),
        id: clone_opt_string(&w.id),
        version_id: clone_opt_string(&w.version_id),
        references: clone_string_vec(&w.references),
        content: w.content.clone(),
    }
}

/// Pair the ordered response list of a grouped exchange back with the
/// submitted list of `expected` operations.
///
/// A response list of the wrong length is a protocol error, reported and
/// never retried, as is an entry whose status text carries no status
/// code; the first offender is named. In all-or-nothing mode any failing
/// entry fails the whole call and no entry is individually trusted; in
/// independent mode each entry's own status is surfaced per operation.
/// On success, outcome `i` is read from response entry `i` alone, for
/// every `i`.
pub fn correlate(mode: GroupMode, expected: usize, entries: &Vec<ResponseEntry>) -> (r: Result<
    Vec<EntryOutcome>,
    Error,
>)
    ensures
        match r {
            Ok(outs) => {
                &&& entries@.len() == expected
                &&& outs@.len() == expected
                &&& forall|i: int|
                    0 <= i < expected ==> outcome_matches(outs@[i], #[trigger] entries@[i])
                &&& (mode is Transaction ==> forall|i: int|
                    0 <= i < expected ==> entry_success(#[trigger] entries@[i]))
            },
            Err(e) => match e {
                Error::GroupLengthMismatch { expected: x, found } => {
                    &&& x == expected
                    &&& found == entries@.len()
                    &&& expected != entries@.len()
                },
                Error::MalformedGroupResponse(s) => {
                    &&& entries@.len() == expected
                    &&& exists|i: int|
                        {
                            &&& 0 <= i < entries@.len()
                            &&& entry_status(#[trigger] entries@[i]) is None
                            &&& s@ == entries@[i].status@
                            &&& forall|j: int|
                                0 <= j < i ==> entry_status(#[trigger] entries@[j]) is Some
                        }
                },
                Error::GroupEntryFailed(s) => {
                    &&& mode is Transaction
                    &&& entries@.len() == expected
                    &&& exists|i: int|
                        {
                            &&& 0 <= i < entries@.len()
                            &&& !entry_success(#[trigger] entries@[i])
                            &&& s@ == entries@[i].status@
                            &&& forall|j: int|
                                0 <= j < i ==> entry_success(#[trigger] entries@[j])
                        }
                },
                _ => false,
            },
        },
{
    let found = entries.len();
    if found != expected {
        return Err(Error::GroupLengthMismatch { expected, found });
    }
    let n = entries.len();
    for i in 0..n
        invariant
            n == entries.len(),
            entries@.len() == expected,
            forall|j: int| 0 <= j < i ==> entry_status(#[trigger] entries@[j]) is Some,
    {
        if parse_status_code(entries[i].status.as_str()).is_none() {
            let text = entries[i].status.clone();
            proof {
                let w = i as int;
                assert(exists|k: int|
                    {
                        &&& 0 <= k < entries@.len()
                        &&& entry_status(#[trigger] entries@[k]) is None
                        &&& text@ == entries@[k].status@
                        &&& forall|j: int|
                            0 <= j < k ==> entry_status(#[trigger] entries@[j]) is Some
                    }) by {
                    assert(entry_status(entries@[w]) is None);
                }
            }
            return Err(Error::MalformedGroupResponse(text));
        }
    }
    if matches!(mode, GroupMode::Transaction) {
        for i in 0..n
            invariant
                n == entries.len(),
                entries@.len() == expected,
                mode is Transaction,
                forall|j: int| 0 <= j < n ==> entry_status(#[trigger] entries@[j]) is Some,
                forall|j: int| 0 <= j < i ==> entry_success(#[trigger] entries@[j]),
        {
            let st = match parse_status_code(entries[i].status.as_str()) {
                Some(st) => st,
                None => {
                    // Excluded by the pass above: every status parses.
                    proof {
                        assert(false);
                    }
                    0
                },
            };
            if !(200 <= st && st < 300) {
                let text = entries[i].status.clone();
                proof {
                    let w = i as int;
                    assert(exists|k: int|
                        {
                            &&& 0 <= k < entries@.len()
                            &&& !entry_success(#[trigger] entries@[k])
                            &&& text@ == entries@[k].status@
                            &&& forall|j: int|
                                0 <= j < k ==> entry_success(#[trigger] entries@[j])
                        }) by {
                        assert(!entry_success(entries@[w]));
                    }
                }
                return Err(Error::GroupEntryFailed(text));
            }
        }
    }
    let mut outs: Vec<EntryOutcome> = Vec::new();
    for i in 0..n
        invariant
            n == entries.len(),
            entries@.len() == expected,
            forall|j: int| 0 <= j < n ==> entry_status(#[trigger] entries@[j]) is Some,
            outs@.len() == i,
            forall|j: int| 0 <= j < i ==> outcome_matches(outs@[j], #[trigger] entries@[j]),
    {
        let st = match parse_status_code(entries[i].status.as_str()) {
            Some(st) => st,
            None => {
                // Excluded by the pass above: every status parses.
                proof {
                    assert(false);
                }
                0
            },
        };
        let outcome = if 200 <= st && st < 300 {
            let identity = match &entries[i].full_url {
                Some(u) => Some(u.clone()),
                None => clone_opt_string(&entries[i].location),
            };
            let resource = match &entries[i].resource {
                Some(w) => Some(clone_wire(w)),
                None => None,
            };
            EntryOutcome::Succeeded { status: st, identity, resource }
        } else {
            EntryOutcome::Failed { status: st }
        };
        outs.push(outcome);
    }
    Ok(outs)
}

/// Whether an operation is a create that handed out this placeholder.
pub open spec fn is_create_of(op: PlannedOperation, placeholder: Seq<char>) -> bool {
    op matches PlannedOperation::Create { placeholder: p, .. } && p@ == placeholder
}

/// The index of the create operation that handed out this placeholder:
/// the first create whose placeholder text equals it.
pub open spec fn placeholder_index(ops: Seq<PlannedOperation>, placeholder: Seq<char>) -> Option<
    int,
> {
    if exists|i: int| 0 <= i < ops.len() && #[trigger] is_create_of(ops[i], placeholder) {
        Some(
            choose|i: int|
                {
                    &&& 0 <= i < ops.len()
                    &&& #[trigger] is_create_of(ops[i], placeholder)
                    &&& forall|j: int|
                        0 <= j < i ==> !is_create_of(#[trigger] ops[j], placeholder)
                },
        )
    } else {
        None
    }
}

/// Resolve a placeholder to the real identity the server assigned:
/// response entry `i` answers planned operation `i`, so the placeholder of
/// the create at position `i` resolves to the identity named by response
/// entry `i`. The resolved value comes from the server; nothing rewrites
/// references locally.
pub fn resolve_placeholder(
    ops: &Vec<PlannedOperation>,
    entries: &Vec<ResponseEntry>,
    placeholder: &str,
) -> (r: Option<String>)
    requires
        ops@.len() == entries@.len(),
    ensures
        match placeholder_index(ops@, placeholder@) {
            Some(i) => opt_view(r) == entry_identity(entries@[i]),
            None => r is None,
        },
{
    let n = ops.len();
    for i in 0..n
        invariant
            n == ops.len(),
            n == entries.len(),
            forall|j: int| 0 <= j < i ==> !is_create_of(#[trigger] ops@[j], placeholder@),
    {
        let hit = match &ops[i] {
            PlannedOperation::Create { placeholder: p, .. } => str_eq(p.as_str(), placeholder),
            _ => false,
        };
        if hit {
            proof {
                assert(is_create_of(ops@[i as int], placeholder@));
                let w = choose|k: int|
                    {
                        &&& 0 <= k < ops@.len()
                        &&& #[trigger] is_create_of(ops@[k], placeholder@)
                        &&& forall|j: int|
                            0 <= j < k ==> !is_create_of(#[trigger] ops@[j], placeholder@)
                    };
                assert(placeholder_index(ops@, placeholder@) == Some(w));
                assert(w == i);
            }
            let resolved = match &entries[i].full_url {
                Some(u) => Some(u.clone()),
                None => clone_opt_string(&entries[i].location),
            };
            return resolved;
        }
    }
    None
}

/// Forward reference resolution: the placeholder a create handed out
/// resolves, through the positional alignment of the response list, to
/// the identity the server assigned to that create's own entry — and
/// whenever that assigned identity is a real one (not the placeholder
/// text echoed back), the resolved reference is distinct from the
/// placeholder. `resolved` is what [`resolve_placeholder`] returns for
/// this placeholder, by its contract.
pub proof fn lemma_forward_reference_resolution(
    ops: Seq<PlannedOperation>,
    entries: Seq<ResponseEntry>,
    placeholder: Seq<char>,
    i: int,
    identity: Seq<char>,
    resolved: Option<String>,
)
    requires
        ops.len() == entries.len(),
        placeholder_index(ops, placeholder) == Some(i),
        entry_identity(entries[i]) == Some(identity),
        identity != placeholder,
        opt_view(resolved) == entry_identity(entries[i]),
    ensures
        0 <= i < ops.len(),
        is_create_of(ops[i], placeholder),
        resolved matches Some(s) && s@ == identity && s@ != placeholder,
{
    assert(exists|k: int| 0 <= k < ops.len() && #[trigger] is_create_of(ops[k], placeholder));
    let k0 = choose|k: int| 0 <= k < ops.len() && #[trigger] is_create_of(ops[k], placeholder);
    lemma_first_create_from(ops, placeholder, k0);
    let w = choose|k: int|
        {
            &&& 0 <= k < ops.len()
            &&& #[trigger] is_create_of(ops[k], placeholder)
            &&& forall|j: int| 0 <= j < k ==> !is_create_of(#[trigger] ops[j], placeholder)
        };
    assert(placeholder_index(ops, placeholder) == Some(w));
    assert(w == i);
}

/// Wherever some create hands a placeholder out, there is a first one.
proof fn lemma_first_create_from(ops: Seq<PlannedOperation>, placeholder: Seq<char>, k0: int)
    requires
        0 <= k0 < ops.len(),
        is_create_of(ops[k0], placeholder),
    ensures
        exists|k: int|
            {
                &&& 0 <= k < ops.len()
                &&& #[trigger] is_create_of(ops[k], placeholder)
                &&& forall|j: int| 0 <= j < k ==> !is_create_of(#[trigger] ops[j], placeholder)
            },
    decreases k0,
{
    if forall|j: int| 0 <= j < k0 ==> !is_create_of(#[trigger] ops[j], placeholder) {
        assert({
            &&& 0 <= k0 < ops.len()
            &&& is_create_of(ops[k0], placeholder)
            &&& forall|j: int| 0 <= j < k0 ==> !is_create_of(#[trigger] ops[j], placeholder)
        });
    } else {
        let j = choose|j: int| 0 <= j < k0 && is_create_of(#[trigger] ops[j], placeholder);
        lemma_first_create_from(ops, placeholder, j);
    }
}

/// The ordering law of grouped exchanges: for a submitted group of length
/// M, the wire list has length M and entry `i` serializes operation `i`;
/// a response list of the same length yields M outcomes, outcome `i` read
/// from response entry `i` alone. Position is preserved end-to-end: no
/// stage reorders, drops or inserts entries.
pub proof fn lemma_group_ordering(
    ops: Seq<PlannedOperation>,
    wire: Seq<TransactionEntry>,
    responses: Seq<ResponseEntry>,
    outcomes: Seq<EntryOutcome>,
)
    requires
        wire.len() == ops.len(),
        forall|i: int| 0 <= i < wire.len() ==> entry_matches(wire[i], #[trigger] ops[i]),
        responses.len() == ops.len(),
        outcomes.len() == responses.len(),
        forall|i: int|
            0 <= i < outcomes.len() ==> outcome_matches(outcomes[i], #[trigger] responses[i]),
    ensures
        outcomes.len() == ops.len(),
        forall|i: int|
            0 <= i < ops.len() ==> entry_matches(wire[i], #[trigger] ops[i]) && outcome_matches(
                outcomes[i],
                responses[i],
            ),
{
}

} // verus!
