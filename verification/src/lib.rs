//! Source-of-truth documentation contracts for the Alani MVK.
//!
//! `alani-docs` owns small, dependency-free APIs for ADR records, document
//! linting, render requests, diagram metadata, and publication evidence. The
//! crate avoids filesystem access; callers pass borrowed content and paths.
//! Every validator is specified by a spec function over the UTF-8 bytes of
//! its string fields, and every executable function is proved against it.

pub mod adr;
pub mod diagrams;
pub mod lint;
pub mod render;
pub mod text;

pub use adr::{AdrDescriptor, AdrIndex, AdrRecord, AdrStatus};
pub use diagrams::{
    validate_mermaid_source, DiagramAsset, DiagramDescriptor, DiagramKind, DiagramLink,
    DiagramStatus,
};
pub use lint::{lint_markdown, LintCode, LintDescriptor, LintFinding, LintReport, LintSeverity};
pub use render::{
    RenderDescriptor, RenderFormat, RenderOptions, RenderRequest, RenderedDocument,
    TemplateDescriptor, TEMPLATE_SECTIONS,
};

use vstd::prelude::*;
use vstd::string::StringSliceAdditionalSpecFns;
use crate::text::{bytes_contain, contains_bytes};

verus! {

/// Repository name.
pub const REPOSITORY: &'static str = "alani-docs";

/// Compatibility alias recorded in the repository spec.
pub const ALIAS_ALANI_SPEC: &'static str = "alani-spec";

/// Crate version.
pub const VERSION: &'static str = "0.1.0";

/// Public module names exposed by this crate.
pub const MODULES: [&'static str; 4] = ["adr", "lint", "render", "diagrams"];

/// Public documentation metadata schema version.
pub const DOCS_SCHEMA_VERSION: &'static str = "alani.docs.v1";

/// Feature bit for ADR records and indexes.
pub const DOCS_FEATURE_ADR: u64 = 1 << 0;

/// Feature bit for markdown lint findings.
pub const DOCS_FEATURE_LINT: u64 = 1 << 1;

/// Feature bit for render request metadata.
pub const DOCS_FEATURE_RENDER: u64 = 1 << 2;

/// Feature bit for diagram assets and links.
pub const DOCS_FEATURE_DIAGRAMS: u64 = 1 << 3;

/// Feature bit for publication evidence summaries.
pub const DOCS_FEATURE_PUBLICATION: u64 = 1 << 4;

/// All feature bits known by this crate version.
pub const DOCS_KNOWN_FEATURES: u64 = DOCS_FEATURE_ADR | DOCS_FEATURE_LINT | DOCS_FEATURE_RENDER
    | DOCS_FEATURE_DIAGRAMS | DOCS_FEATURE_PUBLICATION;

/// Maximum label length accepted by documentation metadata.
pub const MAX_DOC_LABEL_LEN: usize = 128;

/// Maximum document title length.
pub const MAX_DOC_TITLE_LEN: usize = 160;

/// Maximum repository-relative path length.
pub const MAX_DOC_PATH_LEN: usize = 256;

/// Result alias used by documentation APIs.
pub type DocsResult<T> = Result<T, DocsError>;

/// Error taxonomy for documentation validation and linting.
#[derive(Clone, Copy, Debug, PartialEq, Eq, Structural)]
pub enum DocsError {
    /// A required field was empty or omitted.
    MissingField,
    /// A bounded string field exceeded its documented limit.
    FieldTooLong,
    /// A label or path contained unsupported characters.
    InvalidLabel,
    /// Document status was incompatible with the operation.
    InvalidStatus,
    /// A required section was missing.
    MissingSection,
    /// A diagram source failed syntax checks.
    InvalidDiagram,
    /// A render format or options combination is unsupported.
    UnsupportedFormat,
    /// A fixed-capacity report or index is full.
    CapacityExceeded,
    /// An identifier already exists.
    Duplicate,
    /// Requested record was not found.
    NotFound,
    /// Feature or reserved bits were supplied.
    ReservedBits,
}

impl DocsError {
    /// The stable reason label of each error, as characters.
    pub open spec fn reason_text(self) -> Seq<char> {
        match self {
            DocsError::MissingField => "missing_field"@,
            DocsError::FieldTooLong => "field_too_long"@,
            DocsError::InvalidLabel => "invalid_label"@,
            DocsError::InvalidStatus => "invalid_status"@,
            DocsError::MissingSection => "missing_section"@,
            DocsError::InvalidDiagram => "invalid_diagram"@,
            DocsError::UnsupportedFormat => "unsupported_format"@,
            DocsError::CapacityExceeded => "capacity_exceeded"@,
            DocsError::Duplicate => "duplicate"@,
            DocsError::NotFound => "not_found"@,
            DocsError::ReservedBits => "reserved_bits"@,
        }
    }

    /// Stable reason label for lints, tests, and publication evidence.
    pub fn reason(self) -> (r: &'static str)
        ensures
            r@ == self.reason_text(),
    {
        match self {
            DocsError::MissingField => "missing_field",
            DocsError::FieldTooLong => "field_too_long",
            DocsError::InvalidLabel => "invalid_label",
            DocsError::InvalidStatus => "invalid_status",
            DocsError::MissingSection => "missing_section",
            DocsError::InvalidDiagram => "invalid_diagram",
            DocsError::UnsupportedFormat => "unsupported_format",
            DocsError::CapacityExceeded => "capacity_exceeded",
            DocsError::Duplicate => "duplicate",
            DocsError::NotFound => "not_found",
            DocsError::ReservedBits => "reserved_bits",
        }
    }
}

/// The first failing check of a sequence: `first` if it failed, else `next`.
pub open spec fn chain(first: DocsResult<()>, next: DocsResult<()>) -> DocsResult<()> {
    match first {
        Err(e) => Err(e),
        Ok(_) => next,
    }
}

/// Implementation maturity marker for generated repository metadata.
#[derive(Clone, Copy, Debug, PartialEq, Eq, Structural)]
pub enum ComponentStatus {
    /// API is present as a draft skeleton.
    Draft,
    /// API is implemented enough for host-mode experimentation.
    Experimental,
    /// API is compatible and stable.
    Stable,
}

/// Stable component identity record.
#[derive(Clone, Debug, PartialEq, Eq)]
pub struct ComponentInfo {
    /// Repository name.
    pub repository: &'static str,
    /// Crate version.
    pub version: &'static str,
    /// Current implementation status.
    pub status: ComponentStatus,
}

/// Returns stable component identity metadata.
pub fn component_info() -> (r: ComponentInfo)
    ensures
        r.repository@ == REPOSITORY@,
        r.version@ == VERSION@,
        r.status == ComponentStatus::Experimental,
{
    ComponentInfo { repository: REPOSITORY, version: VERSION, status: ComponentStatus::Experimental }
}

/// Returns the repository name.
pub fn repository_name() -> (r: &'static str)
    ensures
        r@ == REPOSITORY@,
{
    REPOSITORY
}

/// Returns public module names.
pub fn module_names() -> (r: &'static [&'static str])
    ensures
        r@ == MODULES@,
{
    &MODULES
}

/// Documentation artifact kind.
#[derive(Clone, Copy, Debug, PartialEq, Eq, Structural)]
pub enum DocumentKind {
    /// Architecture or implementation specification.
    Spec,
    /// Architecture decision record.
    Adr,
    /// Request for comments.
    Rfc,
    /// API reference.
    Api,
    /// Operational runbook.
    Runbook,
    /// Repository README.
    Readme,
}

impl DocumentKind {
    /// The stable wire number of each variant, counting from one.
    pub open spec fn number_of(self) -> u8 {
        match self {
            DocumentKind::Spec => 1,
            DocumentKind::Adr => 2,
            DocumentKind::Rfc => 3,
            DocumentKind::Api => 4,
            DocumentKind::Runbook => 5,
            DocumentKind::Readme => 6,
        }
    }

    /// Returns the stable wire number of this variant.
    pub fn number(self) -> (r: u8)
        ensures
            r == self.number_of(),
    {
        match self {
            DocumentKind::Spec => 1,
            DocumentKind::Adr => 2,
            DocumentKind::Rfc => 3,
            DocumentKind::Api => 4,
            DocumentKind::Runbook => 5,
            DocumentKind::Readme => 6,
        }
    }

    /// The stable label of each kind, as characters.
    pub open spec fn label_text(self) -> Seq<char> {
        match self {
            DocumentKind::Spec => "spec"@,
            DocumentKind::Adr => "adr"@,
            DocumentKind::Rfc => "rfc"@,
            DocumentKind::Api => "api"@,
            DocumentKind::Runbook => "runbook"@,
            DocumentKind::Readme => "readme"@,
        }
    }

    /// Stable kind label.
    pub fn label(self) -> (r: &'static str)
        ensures
            r@ == self.label_text(),
    {
        match self {
            DocumentKind::Spec => "spec",
            DocumentKind::Adr => "adr",
            DocumentKind::Rfc => "rfc",
            DocumentKind::Api => "api",
            DocumentKind::Runbook => "runbook",
            DocumentKind::Readme => "readme",
        }
    }
}

/// Review status for documentation artifacts.
#[derive(Clone, Copy, Debug, PartialEq, Eq, Structural)]
pub enum DocumentStatus {
    /// Initial draft.
    Draft,
    /// Under review.
    Review,
    /// Accepted and current.
    Accepted,
    /// Superseded by a newer document.
    Superseded,
    /// Deprecated but retained for history.
    Deprecated,
}

impl DocumentStatus {
    /// The stable wire number of each variant, counting from one.
    pub open spec fn number_of(self) -> u8 {
        match self {
            DocumentStatus::Draft => 1,
            DocumentStatus::Review => 2,
            DocumentStatus::Accepted => 3,
            DocumentStatus::Superseded => 4,
            DocumentStatus::Deprecated => 5,
        }
    }

    /// Returns the stable wire number of this variant.
    pub fn number(self) -> (r: u8)
        ensures
            r == self.number_of(),
    {
        match self {
            DocumentStatus::Draft => 1,
            DocumentStatus::Review => 2,
            DocumentStatus::Accepted => 3,
            DocumentStatus::Superseded => 4,
            DocumentStatus::Deprecated => 5,
        }
    }

    /// The stable label of each status, as characters.
    pub open spec fn label_text(self) -> Seq<char> {
        match self {
            DocumentStatus::Draft => "draft"@,
            DocumentStatus::Review => "review"@,
            DocumentStatus::Accepted => "accepted"@,
            DocumentStatus::Superseded => "superseded"@,
            DocumentStatus::Deprecated => "deprecated"@,
        }
    }

    /// A status is current unless the artifact was superseded or deprecated.
    pub open spec fn current(self) -> bool {
        match self {
            DocumentStatus::Draft | DocumentStatus::Review | DocumentStatus::Accepted => true,
            DocumentStatus::Superseded | DocumentStatus::Deprecated => false,
        }
    }

    /// Stable status label.
    pub fn label(self) -> (r: &'static str)
        ensures
            r@ == self.label_text(),
    {
        match self {
            DocumentStatus::Draft => "draft",
            DocumentStatus::Review => "review",
            DocumentStatus::Accepted => "accepted",
            DocumentStatus::Superseded => "superseded",
            DocumentStatus::Deprecated => "deprecated",
        }
    }

    /// Returns `true` when the status represents a current artifact.
    pub fn is_current(self) -> (r: bool)
        ensures
            r == self.current(),
    {
        match self {
            DocumentStatus::Draft | DocumentStatus::Review | DocumentStatus::Accepted => true,
            _ => false,
        }
    }
}

/// Bytes allowed in labels: ASCII letters and digits and `: _ - . / @ #`.
pub open spec fn label_byte(b: u8) -> bool {
    ||| 65 <= b <= 90
    ||| 97 <= b <= 122
    ||| 48 <= b <= 57
    ||| b == 58
    ||| b == 95
    ||| b == 45
    ||| b == 46
    ||| b == 47
    ||| b == 64
    ||| b == 35
}

/// Outcome of title validation on the title's bytes.
pub open spec fn title_check(title: Seq<u8>) -> DocsResult<()> {
    if title.len() == 0 {
        Err(DocsError::MissingField)
    } else if title.len() > MAX_DOC_TITLE_LEN {
        Err(DocsError::FieldTooLong)
    } else {
        Ok(())
    }
}

/// Outcome of label validation on the label's bytes with the given maximum length.
pub open spec fn label_check(label: Seq<u8>, max_len: nat) -> DocsResult<()> {
    if label.len() == 0 {
        Err(DocsError::MissingField)
    } else if label.len() > max_len {
        Err(DocsError::FieldTooLong)
    } else if !(forall|i: int| 0 <= i < label.len() ==> label_byte(#[trigger] label[i])) {
        Err(DocsError::InvalidLabel)
    } else {
        Ok(())
    }
}

/// A path is absolute when it begins with `/`.
pub open spec fn is_absolute(path: Seq<u8>) -> bool {
    path.len() > 0 && path[0] == 47
}

/// Outcome of repository-relative path validation on the path's bytes.
pub open spec fn path_check(path: Seq<u8>) -> DocsResult<()> {
    chain(
        label_check(path, MAX_DOC_PATH_LEN as nat),
        if is_absolute(path) || bytes_contain(path, "..".spec_bytes()) {
            Err(DocsError::InvalidLabel)
        } else {
            Ok(())
        },
    )
}

/// Document control block shared by specs, ADRs, RFCs, API docs, and runbooks.
#[derive(Clone, Copy, Debug, PartialEq, Eq)]
pub struct DocumentControl<'a> {
    /// Document title.
    pub title: &'a str,
    /// Stable document identifier.
    pub document_id: &'a str,
    /// Document kind.
    pub kind: DocumentKind,
    /// Review status.
    pub status: DocumentStatus,
    /// Owning team or role.
    pub owner: &'a str,
    /// Version string.
    pub version: &'a str,
    /// Repository-relative path.
    pub path: &'a str,
}

impl<'a> DocumentControl<'a> {
    /// Outcome of validating the control block: the first failing field check.
    pub open spec fn validation(self) -> DocsResult<()> {
        chain(
            title_check(self.title.spec_bytes()),
            chain(
                label_check(self.document_id.spec_bytes(), MAX_DOC_LABEL_LEN as nat),
                chain(
                    label_check(self.owner.spec_bytes(), MAX_DOC_LABEL_LEN as nat),
                    chain(
                        label_check(self.version.spec_bytes(), MAX_DOC_LABEL_LEN as nat),
                        path_check(self.path.spec_bytes()),
                    ),
                ),
            ),
        )
    }

    /// Creates a document control block.
    pub fn new(
        title: &'a str,
        document_id: &'a str,
        kind: DocumentKind,
        status: DocumentStatus,
        owner: &'a str,
        version: &'a str,
        path: &'a str,
    ) -> (r: Self)
        ensures
            r == (DocumentControl { title, document_id, kind, status, owner, version, path }),
    {
        DocumentControl { title, document_id, kind, status, owner, version, path }
    }

    /// Validates required fields, bounded lengths, and label characters.
    pub fn validate(self) -> (r: DocsResult<()>)
        ensures
            r == self.validation(),
    {
        if let Err(e) = validate_title(self.title) {
            return Err(e);
        }
        if let Err(e) = validate_label(self.document_id, MAX_DOC_LABEL_LEN) {
            return Err(e);
        }
        if let Err(e) = validate_label(self.owner, MAX_DOC_LABEL_LEN) {
            return Err(e);
        }
        if let Err(e) = validate_label(self.version, MAX_DOC_LABEL_LEN) {
            return Err(e);
        }
        validate_path(self.path)
    }
}

/// Compact root view of the documentation crate contract.
#[derive(Clone, Copy, Debug, PartialEq, Eq)]
pub struct DocsCatalog {
    /// Repository name.
    pub repository: &'static str,
    /// Compatibility alias.
    pub alias: &'static str,
    /// Crate version.
    pub version: &'static str,
    /// Documentation schema version.
    pub schema_version: &'static str,
    /// Feature bitmap.
    pub features: u64,
    /// Maximum path length.
    pub max_path_len: usize,
}

impl DocsCatalog {
    /// Outcome of catalog validation.
    pub open spec fn validation(self) -> DocsResult<()> {
        if self.repository.spec_bytes().len() == 0 || self.alias.spec_bytes().len() == 0
            || self.version.spec_bytes().len() == 0 || self.schema_version.spec_bytes().len()
            == 0 {
            Err(DocsError::MissingField)
        } else if self.features & !DOCS_KNOWN_FEATURES != 0 {
            Err(DocsError::ReservedBits)
        } else if self.max_path_len == 0 {
            Err(DocsError::MissingField)
        } else {
            Ok(())
        }
    }

    /// Validates catalog metadata.
    pub fn validate(self) -> (r: DocsResult<()>)
        ensures
            r == self.validation(),
    {
        if self.repository.as_bytes().len() == 0 || self.alias.as_bytes().len() == 0
            || self.version.as_bytes().len() == 0 || self.schema_version.as_bytes().len() == 0 {
            return Err(DocsError::MissingField);
        }
        if self.features & !DOCS_KNOWN_FEATURES != 0 {
            return Err(DocsError::ReservedBits);
        }
        if self.max_path_len == 0 {
            return Err(DocsError::MissingField);
        }
        Ok(())
    }
}

/// Returns the current documentation catalog.
pub fn docs_catalog() -> (r: DocsCatalog)
    ensures
        r == (DocsCatalog {
            repository: REPOSITORY,
            alias: ALIAS_ALANI_SPEC,
            version: VERSION,
            schema_version: DOCS_SCHEMA_VERSION,
            features: DOCS_KNOWN_FEATURES,
            max_path_len: MAX_DOC_PATH_LEN,
        }),
        r.validation() is Ok,
{
    proof {
        reveal_strlit("alani-docs");
        reveal_strlit("alani-spec");
        reveal_strlit("0.1.0");
        reveal_strlit("alani.docs.v1");
        crate::text::lemma_str_bytes_empty(REPOSITORY);
        crate::text::lemma_str_bytes_empty(ALIAS_ALANI_SPEC);
        crate::text::lemma_str_bytes_empty(VERSION);
        crate::text::lemma_str_bytes_empty(DOCS_SCHEMA_VERSION);
        let known = DOCS_KNOWN_FEATURES;
        assert(known & !known == 0) by (bit_vector);
    }
    DocsCatalog {
        repository: REPOSITORY,
        alias: ALIAS_ALANI_SPEC,
        version: VERSION,
        schema_version: DOCS_SCHEMA_VERSION,
        features: DOCS_KNOWN_FEATURES,
        max_path_len: MAX_DOC_PATH_LEN,
    }
}

/// Validates a bounded documentation title.
pub fn validate_title(title: &str) -> (r: DocsResult<()>)
    ensures
        r == title_check(title.spec_bytes()),
{
    let bytes = title.as_bytes();
    if bytes.len() == 0 {
        return Err(DocsError::MissingField);
    }
    if bytes.len() > MAX_DOC_TITLE_LEN {
        return Err(DocsError::FieldTooLong);
    }
    Ok(())
}

/// Validates a bounded documentation label.
pub fn validate_label(label: &str, max_len: usize) -> (r: DocsResult<()>)
    ensures
        r == label_check(label.spec_bytes(), max_len as nat),
{
    let bytes = label.as_bytes();
    if bytes.len() == 0 {
        return Err(DocsError::MissingField);
    }
    if bytes.len() > max_len {
        return Err(DocsError::FieldTooLong);
    }
    let mut i: usize = 0;
    while i < bytes.len()
        invariant
            bytes@ == label.spec_bytes(),
            0 < bytes@.len() <= max_len,
            i <= bytes@.len(),
            forall|k: int| 0 <= k < i ==> label_byte(#[trigger] bytes@[k]),
        decreases bytes@.len() - i,
    {
        if !is_label_byte(bytes[i]) {
            assert(!label_byte(label.spec_bytes()[i as int]));
            return Err(DocsError::InvalidLabel);
        }
        i = i + 1;
    }
    Ok(())
}

/// Validates a repository-relative path.
pub fn validate_path(path: &str) -> (r: DocsResult<()>)
    ensures
        r == path_check(path.spec_bytes()),
{
    if let Err(e) = validate_label(path, MAX_DOC_PATH_LEN) {
        return Err(e);
    }
    let bytes = path.as_bytes();
    if bytes[0] == 47u8 || contains_bytes(bytes, "..".as_bytes()) {
        return Err(DocsError::InvalidLabel);
    }
    Ok(())
}

/// A valid path is also a valid label of at most `MAX_DOC_PATH_LEN` bytes
/// that is relative and never steps up a directory.
pub proof fn law_valid_path_is_relative_label(path: Seq<u8>)
    requires
        path_check(path) is Ok,
    ensures
        label_check(path, MAX_DOC_PATH_LEN as nat) is Ok,
        !is_absolute(path),
        !bytes_contain(path, "..".spec_bytes()),
{
}

/// A title is valid exactly when it has between 1 and 160 bytes; an empty
/// title is missing and a longer one is too long.
pub proof fn law_title_bounds(title: Seq<u8>)
    ensures
        title_check(title) is Ok <==> 1 <= title.len() <= 160,
        title.len() == 0 ==> title_check(title) == Err::<(), DocsError>(DocsError::MissingField),
        title.len() > 160 ==> title_check(title) == Err::<(), DocsError>(DocsError::FieldTooLong),
{
}

/// The bytes allowed in labels are exactly the ASCII letters and digits and
/// `:`, `_`, `-`, `.`, `/`, `@`, `#`.
pub proof fn law_label_bytes(b: u8)
    ensures
        label_byte(b) <==> (('A' as u8) <= b <= ('Z' as u8) || ('a' as u8) <= b <= ('z' as u8) || ('0' as u8) <= b <= ('9' as u8) || b
            == (':' as u8) || b == ('_' as u8) || b == ('-' as u8) || b == ('.' as u8) || b == ('/' as u8) || b == ('@' as u8) || b
            == ('#' as u8)),
{
}

/// A label is valid exactly when it is non-empty, within its limit, and made
/// only of label bytes; the errors come in that order.
pub proof fn law_label_rules(label: Seq<u8>, max_len: nat)
    ensures
        label_check(label, max_len) is Ok <==> (1 <= label.len() <= max_len && forall|i: int|
            0 <= i < label.len() ==> label_byte(#[trigger] label[i])),
        label.len() == 0 ==> label_check(label, max_len) == Err::<(), DocsError>(
            DocsError::MissingField,
        ),
        1 <= label.len() && label.len() > max_len ==> label_check(label, max_len) == Err::<
            (),
            DocsError,
        >(DocsError::FieldTooLong),
        (1 <= label.len() <= max_len && exists|i: int|
            0 <= i < label.len() && !label_byte(#[trigger] label[i])) ==> label_check(label, max_len)
            == Err::<(), DocsError>(DocsError::InvalidLabel),
{
}

/// A path is valid exactly when it is a label of at most 256 bytes that does
/// not start with `/` and nowhere contains `..`; a label failure is reported
/// as such, and otherwise an absolute or climbing path is an invalid label.
pub proof fn law_path_rules(path: Seq<u8>)
    ensures
        path_check(path) is Ok <==> (label_check(path, 256) is Ok && path[0] != ('/' as u8)
            && !bytes_contain(path, "..".spec_bytes())),
        label_check(path, 256) is Err ==> path_check(path) == label_check(path, 256),
        label_check(path, 256) is Ok && (path[0] == ('/' as u8) || bytes_contain(path, "..".spec_bytes()))
            ==> path_check(path) == Err::<(), DocsError>(DocsError::InvalidLabel),
{
}

/// A control block is valid exactly when its title, document id, owner,
/// version and path each are; otherwise the first failing field, in that
/// order, gives the error.
pub proof fn law_control_requires_every_field<'a>(control: DocumentControl<'a>)
    ensures
        control.validation() is Ok <==> (title_check(control.title.spec_bytes()) is Ok
            && label_check(control.document_id.spec_bytes(), 128) is Ok && label_check(
            control.owner.spec_bytes(),
            128,
        ) is Ok && label_check(control.version.spec_bytes(), 128) is Ok && path_check(
            control.path.spec_bytes(),
        ) is Ok),
        title_check(control.title.spec_bytes()) is Err ==> control.validation() == title_check(
            control.title.spec_bytes(),
        ),
        title_check(control.title.spec_bytes()) is Ok && label_check(
            control.document_id.spec_bytes(),
            128,
        ) is Err ==> control.validation() == label_check(control.document_id.spec_bytes(), 128),
        title_check(control.title.spec_bytes()) is Ok && label_check(
            control.document_id.spec_bytes(),
            128,
        ) is Ok && label_check(control.owner.spec_bytes(), 128) is Err ==> control.validation()
            == label_check(control.owner.spec_bytes(), 128),
        title_check(control.title.spec_bytes()) is Ok && label_check(
            control.document_id.spec_bytes(),
            128,
        ) is Ok && label_check(control.owner.spec_bytes(), 128) is Ok && label_check(
            control.version.spec_bytes(),
            128,
        ) is Err ==> control.validation() == label_check(control.version.spec_bytes(), 128),
        title_check(control.title.spec_bytes()) is Ok && label_check(
            control.document_id.spec_bytes(),
            128,
        ) is Ok && label_check(control.owner.spec_bytes(), 128) is Ok && label_check(
            control.version.spec_bytes(),
            128,
        ) is Ok ==> control.validation() == path_check(control.path.spec_bytes()),
{
}

/// A catalog is valid exactly when its four names are non-empty, it uses only
/// the five known feature bits, and its path limit is non-zero.
pub proof fn law_catalog_rules(catalog: DocsCatalog)
    ensures
        catalog.validation() is Ok <==> (catalog.repository.spec_bytes().len() > 0
            && catalog.alias.spec_bytes().len() > 0 && catalog.version.spec_bytes().len() > 0
            && catalog.schema_version.spec_bytes().len() > 0 && catalog.features & !0x1fu64 == 0
            && catalog.max_path_len > 0),
        catalog.validation() is Err && catalog.repository.spec_bytes().len() > 0
            && catalog.alias.spec_bytes().len() > 0 && catalog.version.spec_bytes().len() > 0
            && catalog.schema_version.spec_bytes().len() > 0 && catalog.max_path_len > 0
            ==> catalog.validation() == Err::<(), DocsError>(DocsError::ReservedBits),
{
    assert((1u64 << 0u64) | (1u64 << 1u64) | (1u64 << 2u64) | (1u64 << 3u64) | (1u64 << 4u64)
        == 0x1fu64) by (bit_vector);
    assert(DOCS_KNOWN_FEATURES == 0x1fu64);
}

fn is_label_byte(byte: u8) -> (r: bool)
    ensures
        r == label_byte(byte),
{
    (65u8 <= byte && byte <= 90u8) || (97u8 <= byte && byte <= 122u8) || (48u8 <= byte && byte
        <= 57u8) || byte == 58u8 || byte == 95u8 || byte == 45u8 || byte == 46u8 || byte == 47u8
        || byte == 64u8 || byte == 35u8
}

} // verus!
