//! Architecture decision record contracts.
//!
//! ADRs capture reviewed design decisions. This module provides a
//! fixed-capacity index and validation helpers without touching the
//! filesystem. The index holds at most `N` records, all of them valid, with
//! pairwise distinct ids.

use vstd::prelude::*;
use vstd::string::StringSliceAdditionalSpecFns;
use crate::{
    chain, label_check, path_check, title_check, validate_label, validate_title, DocsError, DocsResult,
    DocumentControl, DocumentKind, DocumentStatus, MAX_DOC_LABEL_LEN,
};

verus! {

/// ADR lifecycle status.
#[derive(Clone, Copy, Debug, PartialEq, Eq, Structural)]
pub enum AdrStatus {
    /// Proposed but not yet accepted.
    Proposed,
    /// Accepted and current.
    Accepted,
    /// Superseded by another ADR.
    Superseded,
    /// Deprecated but retained for history.
    Deprecated,
}

impl AdrStatus {
    /// The stable wire number of each variant, counting from one.
    pub open spec fn number_of(self) -> u8 {
        match self {
            AdrStatus::Proposed => 1,
            AdrStatus::Accepted => 2,
            AdrStatus::Superseded => 3,
            AdrStatus::Deprecated => 4,
        }
    }

    /// Returns the stable wire number of this variant.
    pub fn number(self) -> (r: u8)
        ensures
            r == self.number_of(),
    {
        match self {
            AdrStatus::Proposed => 1,
            AdrStatus::Accepted => 2,
            AdrStatus::Superseded => 3,
            AdrStatus::Deprecated => 4,
        }
    }

    /// The stable label of each status, as characters.
    pub open spec fn label_text(self) -> Seq<char> {
        match self {
            AdrStatus::Proposed => "proposed"@,
            AdrStatus::Accepted => "accepted"@,
            AdrStatus::Superseded => "superseded"@,
            AdrStatus::Deprecated => "deprecated"@,
        }
    }

    /// The generic document status that corresponds to an ADR status.
    pub open spec fn as_document_status(self) -> DocumentStatus {
        match self {
            AdrStatus::Proposed => DocumentStatus::Review,
            AdrStatus::Accepted => DocumentStatus::Accepted,
            AdrStatus::Superseded => DocumentStatus::Superseded,
            AdrStatus::Deprecated => DocumentStatus::Deprecated,
        }
    }

    /// An ADR is current while it is proposed or accepted.
    pub open spec fn current(self) -> bool {
        self == AdrStatus::Proposed || self == AdrStatus::Accepted
    }

    /// Stable ADR status label.
    pub fn label(self) -> (r: &'static str)
        ensures
            r@ == self.label_text(),
    {
        match self {
            AdrStatus::Proposed => "proposed",
            AdrStatus::Accepted => "accepted",
            AdrStatus::Superseded => "superseded",
            AdrStatus::Deprecated => "deprecated",
        }
    }

    /// Converts ADR status to generic document status.
    pub fn document_status(self) -> (r: DocumentStatus)
        ensures
            r == self.as_document_status(),
    {
        match self {
            AdrStatus::Proposed => DocumentStatus::Review,
            AdrStatus::Accepted => DocumentStatus::Accepted,
            AdrStatus::Superseded => DocumentStatus::Superseded,
            AdrStatus::Deprecated => DocumentStatus::Deprecated,
        }
    }
}

/// An ADR status is current exactly when its document status is current.
pub proof fn law_adr_current_matches_document_status(status: AdrStatus)
    ensures
        status.current() == status.as_document_status().current(),
{
}

/// Borrowed ADR record.
#[derive(Clone, Copy, Debug, PartialEq, Eq)]
pub struct AdrRecord<'a> {
    /// Numeric ADR identifier. Zero is invalid.
    pub id: u32,
    /// ADR title.
    pub title: &'a str,
    /// Owning team or role.
    pub owner: &'a str,
    /// ADR status.
    pub status: AdrStatus,
    /// Context summary.
    pub context: &'a str,
    /// Decision summary.
    pub decision: &'a str,
    /// Consequence summary.
    pub consequences: &'a str,
    /// Superseded ADR id, or zero when not applicable.
    pub supersedes: u32,
    /// Superseding ADR id, or zero when not applicable.
    pub superseded_by: u32,
}

impl<'a> AdrRecord<'a> {
    /// A superseded ADR names its successor, and only a superseded ADR does.
    pub open spec fn status_check(self) -> DocsResult<()> {
        if self.status == AdrStatus::Superseded && self.superseded_by == 0 {
            Err(DocsError::InvalidStatus)
        } else if self.status != AdrStatus::Superseded && self.superseded_by != 0 {
            Err(DocsError::InvalidStatus)
        } else {
            Ok(())
        }
    }

    /// Outcome of record validation: the first failing check.
    pub open spec fn validation(self) -> DocsResult<()> {
        if self.id == 0 {
            Err(DocsError::MissingField)
        } else {
            chain(
                title_check(self.title.spec_bytes()),
                chain(
                    label_check(self.owner.spec_bytes(), MAX_DOC_LABEL_LEN as nat),
                    chain(
                        title_check(self.context.spec_bytes()),
                        chain(
                            title_check(self.decision.spec_bytes()),
                            chain(title_check(self.consequences.spec_bytes()), self.status_check()),
                        ),
                    ),
                ),
            )
        }
    }

    /// Creates an ADR record.
    pub fn new(
        id: u32,
        title: &'a str,
        owner: &'a str,
        status: AdrStatus,
        context: &'a str,
        decision: &'a str,
        consequences: &'a str,
    ) -> (r: Self)
        ensures
            r == (AdrRecord {
                id,
                title,
                owner,
                status,
                context,
                decision,
                consequences,
                supersedes: 0,
                superseded_by: 0,
            }),
    {
        AdrRecord {
            id,
            title,
            owner,
            status,
            context,
            decision,
            consequences,
            supersedes: 0,
            superseded_by: 0,
        }
    }

    /// Marks this ADR as superseding another ADR.
    pub fn supersedes(self, id: u32) -> (r: Self)
        ensures
            r == (AdrRecord { supersedes: id, ..self }),
    {
        let mut record = self;
        record.supersedes = id;
        record
    }

    /// Marks this ADR as superseded by another ADR.
    pub fn superseded_by(self, id: u32) -> (r: Self)
        ensures
            r == (AdrRecord { superseded_by: id, ..self }),
    {
        let mut record = self;
        record.superseded_by = id;
        record
    }

    /// Returns the generic document control block for this ADR.
    pub fn document_control(self, path: &'a str, version: &'a str) -> (r: DocumentControl<'a>)
        ensures
            r.title == self.title,
            r.document_id@ == "adr"@,
            r.kind == DocumentKind::Adr,
            r.status == self.status.as_document_status(),
            r.owner == self.owner,
            r.version == version,
            r.path == path,
    {
        DocumentControl::new(
            self.title,
            "adr",
            DocumentKind::Adr,
            self.status.document_status(),
            self.owner,
            version,
            path,
        )
    }

    /// Validates required ADR fields and status relationships.
    pub fn validate(self) -> (r: DocsResult<()>)
        ensures
            r == self.validation(),
    {
        if self.id == 0 {
            return Err(DocsError::MissingField);
        }
        if let Err(e) = validate_title(self.title) {
            return Err(e);
        }
        if let Err(e) = validate_label(self.owner, MAX_DOC_LABEL_LEN) {
            return Err(e);
        }
        if let Err(e) = validate_title(self.context) {
            return Err(e);
        }
        if let Err(e) = validate_title(self.decision) {
            return Err(e);
        }
        if let Err(e) = validate_title(self.consequences) {
            return Err(e);
        }
        let superseded = match self.status {
            AdrStatus::Superseded => true,
            _ => false,
        };
        if superseded && self.superseded_by == 0 {
            return Err(DocsError::InvalidStatus);
        }
        if !superseded && self.superseded_by != 0 {
            return Err(DocsError::InvalidStatus);
        }
        Ok(())
    }
}

/// Some record in `records` carries `id`.
pub open spec fn has_id<'a>(records: Seq<AdrRecord<'a>>, id: u32) -> bool {
    exists|i: int| 0 <= i < records.len() && (#[trigger] records[i]).id == id
}

/// No two records in `records` carry the same id.
pub open spec fn ids_unique<'a>(records: Seq<AdrRecord<'a>>) -> bool {
    forall|i: int, j: int|
        0 <= i < records.len() && 0 <= j < records.len() && i != j ==> (#[trigger] records[i]).id
            != (#[trigger] records[j]).id
}

/// What an index of the given capacity always holds: at most `capacity`
/// records, each of them valid, with distinct ids.
pub open spec fn index_invariant<'a>(records: Seq<AdrRecord<'a>>, capacity: nat) -> bool {
    &&& records.len() <= capacity
    &&& forall|i: int| 0 <= i < records.len() ==> (#[trigger] records[i]).validation() is Ok
    &&& ids_unique(records)
}

/// The first record in `records` that carries `id`.
pub open spec fn lookup<'a>(records: Seq<AdrRecord<'a>>, id: u32) -> Option<AdrRecord<'a>>
    decreases records.len(),
{
    if records.len() == 0 {
        None
    } else if records[0].id == id {
        Some(records[0])
    } else {
        lookup(records.drop_first(), id)
    }
}

/// Number of current (proposed or accepted) records.
pub open spec fn count_current<'a>(records: Seq<AdrRecord<'a>>) -> nat
    decreases records.len(),
{
    if records.len() == 0 {
        0
    } else {
        count_current(records.drop_last()) + if records.last().status.current() {
            1nat
        } else {
            0nat
        }
    }
}

/// Outcome of adding `record` to an index holding `records` with the given capacity.
pub open spec fn add_outcome<'a>(
    records: Seq<AdrRecord<'a>>,
    record: AdrRecord<'a>,
    capacity: nat,
) -> DocsResult<()> {
    if records.len() >= capacity {
        Err(DocsError::CapacityExceeded)
    } else {
        chain(
            record.validation(),
            if has_id(records, record.id) {
                Err(DocsError::Duplicate)
            } else {
                Ok(())
            },
        )
    }
}

/// Fixed-capacity ADR index.
#[derive(Debug, PartialEq, Eq)]
pub struct AdrIndex<'a, const N: usize> {
    records: Vec<AdrRecord<'a>>,
}

impl<'a, const N: usize> View for AdrIndex<'a, N> {
    type V = Seq<AdrRecord<'a>>;

    closed spec fn view(&self) -> Seq<AdrRecord<'a>> {
        self.records@
    }
}

impl<'a, const N: usize> AdrIndex<'a, N> {
    #[verifier::type_invariant]
    spec fn well_formed(self) -> bool {
        index_invariant(self.records@, N as nat)
    }

    /// Creates an empty ADR index.
    pub fn new() -> (r: Self)
        ensures
            r@ == Seq::<AdrRecord<'a>>::empty(),
            index_invariant(r@, N as nat),
    {
        AdrIndex { records: Vec::new() }
    }

    /// Returns the number of indexed ADRs.
    pub fn len(&self) -> (r: usize)
        ensures
            r == self@.len(),
            r <= N,
    {
        proof {
            use_type_invariant(self);
        }
        self.records.len()
    }

    /// Returns `true` when no ADRs are indexed.
    pub fn is_empty(&self) -> (r: bool)
        ensures
            r == (self@.len() == 0),
    {
        self.records.len() == 0
    }

    /// Adds a validated ADR record.
    pub fn add(&mut self, record: AdrRecord<'a>) -> (r: DocsResult<()>)
        ensures
            r == add_outcome(old(self)@, record, N as nat),
            r is Ok ==> final(self)@ == old(self)@.push(record),
            r is Err ==> final(self)@ == old(self)@,
            index_invariant(final(self)@, N as nat),
    {
        proof {
            use_type_invariant(&*self);
        }
        if self.records.len() >= N {
            return Err(DocsError::CapacityExceeded);
        }
        if let Err(e) = record.validate() {
            return Err(e);
        }
        if self.find(record.id).is_some() {
            return Err(DocsError::Duplicate);
        }
        let mut records: Vec<AdrRecord<'a>> = Vec::new();
        std::mem::swap(&mut records, &mut self.records);
        records.push(record);
        proof {
            let s = records@;
            assert forall|i: int, j: int|
                0 <= i < s.len() && 0 <= j < s.len() && i != j implies (#[trigger] s[i]).id
                != (#[trigger] s[j]).id by {
                if i == s.len() - 1 {
                    assert(old(self)@[j] == s[j]);
                } else if j == s.len() - 1 {
                    assert(old(self)@[i] == s[i]);
                }
            }
        }
        self.records = records;
        Ok(())
    }

    /// Finds an ADR by id.
    pub fn find(&self, id: u32) -> (r: Option<AdrRecord<'a>>)
        ensures
            r == lookup(self@, id),
            r is None <==> !has_id(self@, id),
    {
        let mut index: usize = 0;
        let ghost records = self@;
        assert(records.skip(0) =~= records);
        while index < self.records.len()
            invariant
                records == self.records@,
                index <= records.len(),
                lookup(records, id) == lookup(records.skip(index as int), id),
                forall|k: int| 0 <= k < index ==> (#[trigger] records[k]).id != id,
            decreases records.len() - index,
        {
            let record = self.records[index];
            assert(records.skip(index as int)[0] == record);
            if record.id == id {
                proof {
                    lemma_lookup_some(records, id);
                }
                return Some(record);
            }
            assert(records.skip(index as int).drop_first() =~= records.skip(index + 1));
            index = index + 1;
        }
        assert(records.skip(index as int) =~= Seq::<AdrRecord<'a>>::empty());
        None
    }

    /// Counts ADRs that are not superseded or deprecated.
    pub fn current_count(&self) -> (r: usize)
        ensures
            r == count_current(self@),
    {
        let ghost records = self@;
        let mut count: usize = 0;
        let mut index: usize = 0;
        while index < self.records.len()
            invariant
                records == self.records@,
                index <= records.len(),
                count == count_current(records.take(index as int)),
            decreases records.len() - index,
        {
            proof {
                lemma_count_current_bound(records.take(index as int));
            }
            let record = self.records[index];
            assert(records.take(index + 1).drop_last() =~= records.take(index as int));
            let current = match record.status {
                AdrStatus::Proposed | AdrStatus::Accepted => true,
                _ => false,
            };
            if current {
                count = count + 1;
            }
            index = index + 1;
        }
        assert(records.take(index as int) =~= records);
        count
    }
}

impl<'a, const N: usize> Clone for AdrIndex<'a, N> {
    fn clone(&self) -> (r: Self)
        ensures
            r@ == self@,
    {
        proof {
            use_type_invariant(self);
        }
        let records = self.records.clone();
        assert(records@ =~= self.records@);
        AdrIndex { records }
    }
}

impl<'a, const N: usize> Default for AdrIndex<'a, N> {
    fn default() -> (r: Self)
        ensures
            r@ == Seq::<AdrRecord<'a>>::empty(),
    {
        Self::new()
    }
}

/// A record found by `lookup` is in the sequence and carries the id, and
/// `lookup` finds something exactly when some record carries the id.
pub proof fn lemma_lookup_some<'a>(records: Seq<AdrRecord<'a>>, id: u32)
    ensures
        lookup(records, id) is Some <==> has_id(records, id),
        lookup(records, id) matches Some(r) ==> r.id == id && records.contains(r),
    decreases records.len(),
{
    if records.len() > 0 {
        let rest = records.drop_first();
        lemma_lookup_some(rest, id);
        if has_id(rest, id) {
            let i = choose|i: int| 0 <= i < rest.len() && (#[trigger] rest[i]).id == id;
            assert(records[i + 1] == rest[i]);
        }
        if has_id(records, id) && records[0].id != id {
            let i = choose|i: int| 0 <= i < records.len() && (#[trigger] records[i]).id == id;
            assert(rest[i - 1] == records[i]);
        }
        if let Some(r) = lookup(rest, id) {
            if records[0].id != id {
                let k = choose|k: int| 0 <= k < rest.len() && rest[k] == r;
                assert(records[k + 1] == r);
            }
        }
    }
}

/// The number of current records never exceeds the number of records.
pub proof fn lemma_count_current_bound<'a>(records: Seq<AdrRecord<'a>>)
    ensures
        count_current(records) <= records.len(),
    decreases records.len(),
{
    if records.len() > 0 {
        lemma_count_current_bound(records.drop_last());
    }
}

/// Once a record with a fresh id is appended, looking that id up gives the
/// record back.
pub proof fn law_find_after_add<'a>(records: Seq<AdrRecord<'a>>, record: AdrRecord<'a>)
    requires
        !has_id(records, record.id),
    ensures
        lookup(records.push(record), record.id) == Some(record),
    decreases records.len(),
{
    if records.len() > 0 {
        let rest = records.drop_first();
        assert(records.push(record).drop_first() =~= rest.push(record));
        assert(records[0].id != record.id);
        assert forall|i: int| 0 <= i < rest.len() implies (#[trigger] rest[i]).id != record.id by {
            assert(records[i + 1] == rest[i]);
        }
        law_find_after_add(rest, record);
    }
}

/// Appending a record never changes what an already present id looks up to.
pub proof fn law_add_keeps_lookups<'a>(records: Seq<AdrRecord<'a>>, record: AdrRecord<'a>, id: u32)
    requires
        has_id(records, id),
    ensures
        lookup(records.push(record), id) == lookup(records, id),
    decreases records.len(),
{
    let rest = records.drop_first();
    assert(records.push(record).drop_first() =~= rest.push(record));
    if records[0].id != id {
        let i = choose|i: int| 0 <= i < records.len() && (#[trigger] records[i]).id == id;
        assert(rest[i - 1] == records[i]);
        law_add_keeps_lookups(rest, record, id);
    }
}

/// Adding a record counts it as current exactly when its status is current.
pub proof fn law_count_after_add<'a>(records: Seq<AdrRecord<'a>>, record: AdrRecord<'a>)
    ensures
        count_current(records.push(record)) == count_current(records) + if record.status.current() {
            1nat
        } else {
            0nat
        },
{
    assert(records.push(record).drop_last() =~= records);
}

/// Once a record has been added, adding it again is rejected: as a
/// duplicate, or for capacity when the index has just filled up.
pub proof fn law_second_add_rejected<'a>(
    records: Seq<AdrRecord<'a>>,
    record: AdrRecord<'a>,
    capacity: nat,
)
    requires
        add_outcome(records, record, capacity) is Ok,
    ensures
        add_outcome(records.push(record), record, capacity) == if records.len() + 1 >= capacity {
            Err::<(), DocsError>(DocsError::CapacityExceeded)
        } else {
            Err::<(), DocsError>(DocsError::Duplicate)
        },
{
    let pushed = records.push(record);
    assert(pushed[records.len() as int] == record);
}

/// The control block of a valid ADR can only fail on the version and the
/// path it was given: title, identifier and owner are already valid.
pub proof fn law_valid_adr_control_block<'a>(record: AdrRecord<'a>, control: DocumentControl<'a>)
    requires
        record.validation() is Ok,
        control.title == record.title,
        control.document_id@ == "adr"@,
        control.owner == record.owner,
    ensures
        control.validation() == chain(
            label_check(control.version.spec_bytes(), MAX_DOC_LABEL_LEN as nat),
            path_check(control.path.spec_bytes()),
        ),
{
    reveal_strlit("adr");
    let id = control.document_id;
    assert(vstd::string::is_ascii(id));
    vstd::string::is_ascii_spec_bytes(id);
    let b = id.spec_bytes();
    assert(b.len() == 3);
    assert forall|i: int| 0 <= i < b.len() implies crate::label_byte(#[trigger] b[i]) by {
        assert(b[i] == id@[i] as u8);
    }
}

/// An ADR is valid exactly when its id is non-zero, its title, context,
/// decision and consequences are valid titles, its owner is a valid label,
/// and it names a successor exactly when it is superseded.
pub proof fn law_adr_requires_every_field<'a>(record: AdrRecord<'a>)
    ensures
        record.validation() is Ok <==> (record.id != 0 && title_check(record.title.spec_bytes())
            is Ok && label_check(record.owner.spec_bytes(), 128) is Ok && title_check(
            record.context.spec_bytes(),
        ) is Ok && title_check(record.decision.spec_bytes()) is Ok && title_check(
            record.consequences.spec_bytes(),
        ) is Ok && ((record.status == AdrStatus::Superseded) <==> (record.superseded_by != 0))),
        record.id == 0 ==> record.validation() == Err::<(), DocsError>(DocsError::MissingField),
        record.id != 0 && title_check(record.title.spec_bytes()) is Err ==> record.validation()
            == title_check(record.title.spec_bytes()),
        record.id != 0 && title_check(record.title.spec_bytes()) is Ok && label_check(
            record.owner.spec_bytes(),
            128,
        ) is Err ==> record.validation() == label_check(record.owner.spec_bytes(), 128),
        record.id != 0 && title_check(record.title.spec_bytes()) is Ok && label_check(
            record.owner.spec_bytes(),
            128,
        ) is Ok && title_check(record.context.spec_bytes()) is Err ==> record.validation()
            == title_check(record.context.spec_bytes()),
        record.id != 0 && title_check(record.title.spec_bytes()) is Ok && label_check(
            record.owner.spec_bytes(),
            128,
        ) is Ok && title_check(record.context.spec_bytes()) is Ok && title_check(
            record.decision.spec_bytes(),
        ) is Err ==> record.validation() == title_check(record.decision.spec_bytes()),
        record.id != 0 && title_check(record.title.spec_bytes()) is Ok && label_check(
            record.owner.spec_bytes(),
            128,
        ) is Ok && title_check(record.context.spec_bytes()) is Ok && title_check(
            record.decision.spec_bytes(),
        ) is Ok && title_check(record.consequences.spec_bytes()) is Err ==> record.validation()
            == title_check(record.consequences.spec_bytes()),
        record.validation() is Err && record.id != 0 && title_check(record.title.spec_bytes())
            is Ok && label_check(record.owner.spec_bytes(), 128) is Ok && title_check(
            record.context.spec_bytes(),
        ) is Ok && title_check(record.decision.spec_bytes()) is Ok && title_check(
            record.consequences.spec_bytes(),
        ) is Ok ==> record.validation() == Err::<(), DocsError>(DocsError::InvalidStatus),
{
}

/// Adding to an index succeeds exactly when it has room, the record is
/// valid and no stored record has its id; a full index reports capacity
/// first, then an invalid record its own error, then a taken id `Duplicate`.
pub proof fn law_add_rules<'a>(records: Seq<AdrRecord<'a>>, record: AdrRecord<'a>, capacity: nat)
    ensures
        add_outcome(records, record, capacity) is Ok <==> (records.len() < capacity
            && record.validation() is Ok && forall|i: int|
            0 <= i < records.len() ==> (#[trigger] records[i]).id != record.id),
        records.len() >= capacity ==> add_outcome(records, record, capacity) == Err::<
            (),
            DocsError,
        >(DocsError::CapacityExceeded),
        records.len() < capacity && record.validation() is Err ==> add_outcome(
            records,
            record,
            capacity,
        ) == record.validation(),
        records.len() < capacity && record.validation() is Ok && (exists|i: int|
            0 <= i < records.len() && (#[trigger] records[i]).id == record.id) ==> add_outcome(
            records,
            record,
            capacity,
        ) == Err::<(), DocsError>(DocsError::Duplicate),
{
}

/// `find` gives the first stored record with the id: it carries the id, is
/// stored, and no earlier record carries the id; it gives nothing exactly
/// when no record carries the id.
pub proof fn law_lookup_is_first_match<'a>(records: Seq<AdrRecord<'a>>, id: u32)
    ensures
        lookup(records, id) is None <==> forall|i: int|
            0 <= i < records.len() ==> (#[trigger] records[i]).id != id,
        lookup(records, id) matches Some(r) ==> exists|i: int|
            0 <= i < records.len() && records[i] == r && r.id == id && forall|j: int|
                0 <= j < i ==> (#[trigger] records[j]).id != id,
    decreases records.len(),
{
    lemma_lookup_some(records, id);
    if records.len() > 0 && records[0].id != id {
        let rest = records.drop_first();
        law_lookup_is_first_match(rest, id);
        if let Some(r) = lookup(rest, id) {
            let i = choose|i: int|
                0 <= i < rest.len() && rest[i] == r && r.id == id && forall|j: int|
                    0 <= j < i ==> (#[trigger] rest[j]).id != id;
            assert(records[i + 1] == r);
            assert forall|j: int| 0 <= j < i + 1 implies (#[trigger] records[j]).id != id by {
                if j > 0 {
                    assert(records[j] == rest[j - 1]);
                }
            }
        }
    } else if records.len() > 0 {
        assert(records[0].id == id);
    }
}

/// The current count is the number of stored records that are proposed or
/// accepted: removing the last record lowers it by one exactly when that
/// record is proposed or accepted, and an empty index counts zero.
pub proof fn law_count_counts_proposed_and_accepted<'a>(records: Seq<AdrRecord<'a>>)
    ensures
        records.len() == 0 ==> count_current(records) == 0,
        records.len() > 0 ==> count_current(records) == count_current(records.drop_last()) + if (
        records.last().status == AdrStatus::Proposed || records.last().status
            == AdrStatus::Accepted) {
            1nat
        } else {
            0nat
        },
{
}

/// Module boundary descriptor.
#[derive(Clone, Debug, PartialEq, Eq)]
pub struct AdrDescriptor<'a> {
    /// Human-readable descriptor name.
    pub name: &'a str,
    /// Descriptor version.
    pub version: u32,
}

impl<'a> AdrDescriptor<'a> {
    /// Creates an ADR descriptor.
    pub fn new(name: &'a str, version: u32) -> (r: Self)
        ensures
            r == (AdrDescriptor { name, version }),
    {
        AdrDescriptor { name, version }
    }
}

} // verus!
