//! Documentation lint contracts.
//!
//! Lints are bounded and deterministic so CI, release tooling, and tests can
//! share the same finding vocabulary. A report holds at most `N` findings,
//! each of them valid.

use vstd::prelude::*;
use vstd::string::StringSliceAdditionalSpecFns;
use crate::text::{bytes_contain, contains_bytes, lemma_str_bytes_empty};
use crate::{chain, path_check, validate_path, DocsError, DocsResult, MAX_DOC_LABEL_LEN};

verus! {

/// Lint severity.
#[derive(Clone, Copy, Debug, PartialEq, Eq, Structural)]
pub enum LintSeverity {
    /// Informational finding.
    Info,
    /// Warning that should be reviewed.
    Warning,
    /// Error that should fail CI.
    Error,
}

impl LintSeverity {
    /// The stable wire number of each variant, counting from one.
    pub open spec fn number_of(self) -> u8 {
        match self {
            LintSeverity::Info => 1,
            LintSeverity::Warning => 2,
            LintSeverity::Error => 3,
        }
    }

    /// Returns the stable wire number of this variant.
    pub fn number(self) -> (r: u8)
        ensures
            r == self.number_of(),
    {
        match self {
            LintSeverity::Info => 1,
            LintSeverity::Warning => 2,
            LintSeverity::Error => 3,
        }
    }

    /// The stable label of each severity, as characters.
    pub open spec fn label_text(self) -> Seq<char> {
        match self {
            LintSeverity::Info => "info"@,
            LintSeverity::Warning => "warning"@,
            LintSeverity::Error => "error"@,
        }
    }

    /// Stable severity label.
    pub fn label(self) -> (r: &'static str)
        ensures
            r@ == self.label_text(),
    {
        match self {
            LintSeverity::Info => "info",
            LintSeverity::Warning => "warning",
            LintSeverity::Error => "error",
        }
    }
}

/// Stable lint finding code.
#[derive(Clone, Copy, Debug, PartialEq, Eq, Structural)]
pub enum LintCode {
    /// Document control section is missing.
    MissingDocumentControl,
    /// Purpose section is missing.
    MissingPurpose,
    /// Acceptance criteria section is missing.
    MissingAcceptanceCriteria,
    /// Document contains unresolved TODO marker.
    TodoMarker,
    /// Diagram fence or source looks malformed.
    DiagramSyntax,
    /// Document path is invalid.
    InvalidPath,
}

impl LintCode {
    /// The stable wire number of each variant, counting from one.
    pub open spec fn number_of(self) -> u16 {
        match self {
            LintCode::MissingDocumentControl => 1,
            LintCode::MissingPurpose => 2,
            LintCode::MissingAcceptanceCriteria => 3,
            LintCode::TodoMarker => 4,
            LintCode::DiagramSyntax => 5,
            LintCode::InvalidPath => 6,
        }
    }

    /// Returns the stable wire number of this variant.
    pub fn number(self) -> (r: u16)
        ensures
            r == self.number_of(),
    {
        match self {
            LintCode::MissingDocumentControl => 1,
            LintCode::MissingPurpose => 2,
            LintCode::MissingAcceptanceCriteria => 3,
            LintCode::TodoMarker => 4,
            LintCode::DiagramSyntax => 5,
            LintCode::InvalidPath => 6,
        }
    }

    /// Every code is an error except the TODO marker, which is a warning.
    pub open spec fn default_severity(self) -> LintSeverity {
        match self {
            LintCode::TodoMarker => LintSeverity::Warning,
            _ => LintSeverity::Error,
        }
    }

    /// The stable label of each code, as characters.
    pub open spec fn label_text(self) -> Seq<char> {
        match self {
            LintCode::MissingDocumentControl => "missing_document_control"@,
            LintCode::MissingPurpose => "missing_purpose"@,
            LintCode::MissingAcceptanceCriteria => "missing_acceptance_criteria"@,
            LintCode::TodoMarker => "todo_marker"@,
            LintCode::DiagramSyntax => "diagram_syntax"@,
            LintCode::InvalidPath => "invalid_path"@,
        }
    }

    /// Default severity for this code.
    pub fn severity(self) -> (r: LintSeverity)
        ensures
            r == self.default_severity(),
    {
        match self {
            LintCode::TodoMarker => LintSeverity::Warning,
            _ => LintSeverity::Error,
        }
    }

    /// Stable code label.
    pub fn label(self) -> (r: &'static str)
        ensures
            r@ == self.label_text(),
    {
        match self {
            LintCode::MissingDocumentControl => "missing_document_control",
            LintCode::MissingPurpose => "missing_purpose",
            LintCode::MissingAcceptanceCriteria => "missing_acceptance_criteria",
            LintCode::TodoMarker => "todo_marker",
            LintCode::DiagramSyntax => "diagram_syntax",
            LintCode::InvalidPath => "invalid_path",
        }
    }
}

/// Every code label is between one and 27 characters long.
proof fn lemma_code_label_len(code: LintCode)
    ensures
        0 < code.label_text().len() <= 27,
{
    reveal_strlit("missing_document_control");
    reveal_strlit("missing_purpose");
    reveal_strlit("missing_acceptance_criteria");
    reveal_strlit("todo_marker");
    reveal_strlit("diagram_syntax");
    reveal_strlit("invalid_path");
}

/// One documentation lint finding.
#[derive(Clone, Copy, Debug, PartialEq, Eq)]
pub struct LintFinding<'a> {
    /// Stable finding code.
    pub code: LintCode,
    /// Finding severity.
    pub severity: LintSeverity,
    /// Repository-relative path.
    pub path: &'a str,
    /// One-based line number, or zero when not available.
    pub line: u32,
    /// Stable message label.
    pub message: &'static str,
}

impl<'a> LintFinding<'a> {
    /// Outcome of finding validation: the path must be valid, and the message
    /// non-empty and at most `MAX_DOC_LABEL_LEN` bytes.
    pub open spec fn validation(self) -> DocsResult<()> {
        chain(
            path_check(self.path.spec_bytes()),
            if self.message.spec_bytes().len() == 0 || self.message.spec_bytes().len()
                > MAX_DOC_LABEL_LEN {
                Err(DocsError::MissingField)
            } else {
                Ok(())
            },
        )
    }

    /// The finding that `LintFinding::new(code, path, line)` builds.
    pub open spec fn is_default_for(self, code: LintCode, path: &'a str, line: u32) -> bool {
        &&& self.code == code
        &&& self.severity == code.default_severity()
        &&& self.path == path
        &&& self.line == line
        &&& self.message@ == code.label_text()
    }

    /// Creates a finding with default severity.
    pub fn new(code: LintCode, path: &'a str, line: u32) -> (r: Self)
        ensures
            r.is_default_for(code, path, line),
    {
        LintFinding { code, severity: code.severity(), path, line, message: code.label() }
    }

    /// Validates finding metadata.
    pub fn validate(self) -> (r: DocsResult<()>)
        ensures
            r == self.validation(),
    {
        if let Err(e) = validate_path(self.path) {
            return Err(e);
        }
        let message = self.message.as_bytes();
        if message.len() == 0 || message.len() > MAX_DOC_LABEL_LEN {
            return Err(DocsError::MissingField);
        }
        Ok(())
    }
}

/// A default finding is valid exactly when its path is valid.
proof fn lemma_default_finding_validation<'a>(
    finding: LintFinding<'a>,
    code: LintCode,
    path: &'a str,
    line: u32,
)
    requires
        finding.is_default_for(code, path, line),
    ensures
        finding.validation() == path_check(path.spec_bytes()),
{
    lemma_code_label_len(code);
    lemma_str_bytes_empty(finding.message);
}

/// What a report of the given capacity always holds: at most `capacity`
/// findings, each of them valid.
pub open spec fn report_invariant<'a>(findings: Seq<LintFinding<'a>>, capacity: nat) -> bool {
    &&& findings.len() <= capacity
    &&& forall|i: int| 0 <= i < findings.len() ==> (#[trigger] findings[i]).validation() is Ok
}

/// Outcome of adding `finding` to a report holding `findings` with the given capacity.
pub open spec fn report_add_outcome<'a>(
    findings: Seq<LintFinding<'a>>,
    finding: LintFinding<'a>,
    capacity: nat,
) -> DocsResult<()> {
    if findings.len() >= capacity {
        Err(DocsError::CapacityExceeded)
    } else {
        finding.validation()
    }
}

/// Some finding has error severity.
pub open spec fn any_error<'a>(findings: Seq<LintFinding<'a>>) -> bool {
    exists|i: int| 0 <= i < findings.len() && (#[trigger] findings[i]).severity == LintSeverity::Error
}

/// Fixed-capacity lint report.
#[derive(Debug, PartialEq, Eq)]
pub struct LintReport<'a, const N: usize> {
    findings: Vec<LintFinding<'a>>,
}

impl<'a, const N: usize> View for LintReport<'a, N> {
    type V = Seq<LintFinding<'a>>;

    closed spec fn view(&self) -> Seq<LintFinding<'a>> {
        self.findings@
    }
}

impl<'a, const N: usize> LintReport<'a, N> {
    #[verifier::type_invariant]
    spec fn well_formed(self) -> bool {
        report_invariant(self.findings@, N as nat)
    }

    /// Creates an empty report.
    pub fn new() -> (r: Self)
        ensures
            r@ == Seq::<LintFinding<'a>>::empty(),
            report_invariant(r@, N as nat),
    {
        LintReport { findings: Vec::new() }
    }

    /// Returns the number of findings.
    pub fn len(&self) -> (r: usize)
        ensures
            r == self@.len(),
            r <= N,
    {
        proof {
            use_type_invariant(self);
        }
        self.findings.len()
    }

    /// Returns `true` when the report has no findings.
    pub fn is_empty(&self) -> (r: bool)
        ensures
            r == (self@.len() == 0),
    {
        self.findings.len() == 0
    }

    /// Adds a finding.
    pub fn add(&mut self, finding: LintFinding<'a>) -> (r: DocsResult<()>)
        ensures
            r == report_add_outcome(old(self)@, finding, N as nat),
            r is Ok ==> final(self)@ == old(self)@.push(finding),
            r is Err ==> final(self)@ == old(self)@,
            report_invariant(final(self)@, N as nat),
    {
        proof {
            use_type_invariant(&*self);
        }
        if self.findings.len() >= N {
            return Err(DocsError::CapacityExceeded);
        }
        if let Err(e) = finding.validate() {
            return Err(e);
        }
        let mut findings: Vec<LintFinding<'a>> = Vec::new();
        std::mem::swap(&mut findings, &mut self.findings);
        findings.push(finding);
        self.findings = findings;
        Ok(())
    }

    /// Returns a finding by index.
    pub fn finding(&self, index: usize) -> (r: Option<LintFinding<'a>>)
        ensures
            r == (if index < self@.len() {
                Some(self@[index as int])
            } else {
                None
            }),
    {
        if index < self.findings.len() {
            Some(self.findings[index])
        } else {
            None
        }
    }

    /// Returns `true` when any finding is an error.
    pub fn has_errors(&self) -> (r: bool)
        ensures
            r == any_error(self@),
    {
        let mut index: usize = 0;
        while index < self.findings.len()
            invariant
                index <= self.findings@.len(),
                forall|k: int|
                    0 <= k < index ==> (#[trigger] self.findings@[k]).severity
                        != LintSeverity::Error,
            decreases self.findings@.len() - index,
        {
            let finding = self.findings[index];
            let is_error = match finding.severity {
                LintSeverity::Error => true,
                _ => false,
            };
            if is_error {
                return true;
            }
            index = index + 1;
        }
        false
    }
}

impl<'a, const N: usize> Clone for LintReport<'a, N> {
    fn clone(&self) -> (r: Self)
        ensures
            r@ == self@,
    {
        proof {
            use_type_invariant(self);
        }
        let findings = self.findings.clone();
        assert(findings@ =~= self.findings@);
        LintReport { findings }
    }
}

impl<'a, const N: usize> Default for LintReport<'a, N> {
    fn default() -> (r: Self)
        ensures
            r@ == Seq::<LintFinding<'a>>::empty(),
    {
        Self::new()
    }
}

/// `codes` with `code` appended when `missing` holds.
pub open spec fn push_if(codes: Seq<LintCode>, missing: bool, code: LintCode) -> Seq<LintCode> {
    if missing {
        codes.push(code)
    } else {
        codes
    }
}

/// The codes that the markdown lint reports for a document with a valid path,
/// in the order it checks them.
pub open spec fn lint_codes(markdown: Seq<u8>) -> Seq<LintCode> {
    let step1 = push_if(
        Seq::empty(),
        !bytes_contain(markdown, "## Document Control".spec_bytes()),
        LintCode::MissingDocumentControl,
    );
    let step2 = push_if(
        step1,
        !bytes_contain(markdown, "## Purpose".spec_bytes()),
        LintCode::MissingPurpose,
    );
    let step3 = push_if(
        step2,
        !bytes_contain(markdown, "## Acceptance Criteria".spec_bytes()),
        LintCode::MissingAcceptanceCriteria,
    );
    let step4 = push_if(
        step3,
        bytes_contain(markdown, "TODO".spec_bytes()) || bytes_contain(markdown, "todo!".spec_bytes()),
        LintCode::TodoMarker,
    );
    push_if(
        step4,
        bytes_contain(markdown, "```mermaid".spec_bytes()) && !bytes_contain(
            markdown,
            "```".spec_bytes(),
        ),
        LintCode::DiagramSyntax,
    )
}

/// Outcome of linting: the codes reported, or the error that stops the lint.
/// An invalid path is itself recorded as a finding, and that finding fails
/// validation, so the lint then ends with the path's error (or with
/// `CapacityExceeded` when the report has no room at all).
pub open spec fn lint_outcome(path: Seq<u8>, markdown: Seq<u8>, capacity: nat) -> DocsResult<
    Seq<LintCode>,
> {
    match path_check(path) {
        Err(e) => if capacity == 0 {
            Err(DocsError::CapacityExceeded)
        } else {
            Err(e)
        },
        Ok(_) => if lint_codes(markdown).len() > capacity {
            Err(DocsError::CapacityExceeded)
        } else {
            Ok(lint_codes(markdown))
        },
    }
}

/// `findings` are the default findings, at line zero of `path`, for `codes`.
pub open spec fn findings_for<'a>(
    findings: Seq<LintFinding<'a>>,
    codes: Seq<LintCode>,
    path: &'a str,
) -> bool {
    &&& findings.len() == codes.len()
    &&& forall|i: int| 0 <= i < codes.len() ==> (#[trigger] findings[i]).is_default_for(codes[i], path, 0)
}

/// Appends the default finding for `code` when `missing` holds.
fn report_if<'a, const N: usize>(
    report: &mut LintReport<'a, N>,
    missing: bool,
    code: LintCode,
    path: &'a str,
    Ghost(codes): Ghost<Seq<LintCode>>,
) -> (r: DocsResult<()>)
    requires
        path_check(path.spec_bytes()) is Ok,
        findings_for(old(report)@, codes, path),
    ensures
        r is Ok <==> push_if(codes, missing, code).len() <= N,
        r is Err ==> r == Err::<(), DocsError>(DocsError::CapacityExceeded),
        r is Ok ==> findings_for(final(report)@, push_if(codes, missing, code), path),
{
    if missing {
        let finding = LintFinding::new(code, path, 0);
        proof {
            lemma_default_finding_validation(finding, code, path, 0);
        }
        let r = report.add(finding);
        proof {
            if r is Ok {
                let s = report@;
                assert forall|i: int| 0 <= i < codes.len() + 1 implies (#[trigger] s[i]).is_default_for(
                    codes.push(code)[i],
                    path,
                    0,
                ) by {
                    if i < codes.len() {
                        assert(s[i] == old(report)@[i]);
                    }
                }
            }
        }
        r
    } else {
        proof {
            use_type_invariant(&*report);
        }
        Ok(())
    }
}

/// Lints a markdown document for the minimum required Alani sections.
pub fn lint_markdown<'a, const N: usize>(path: &'a str, markdown: &str) -> (r: DocsResult<
    LintReport<'a, N>,
>)
    ensures
        match lint_outcome(path.spec_bytes(), markdown.spec_bytes(), N as nat) {
            Ok(codes) => r matches Ok(report) && findings_for(report@, codes, path),
            Err(e) => r matches Err(e2) && e2 == e,
        },
{
    let mut report: LintReport<'a, N> = LintReport::new();
    if validate_path(path).is_err() {
        let finding = LintFinding::new(LintCode::InvalidPath, path, 0);
        proof {
            lemma_default_finding_validation(finding, LintCode::InvalidPath, path, 0);
        }
        if let Err(e) = report.add(finding) {
            return Err(e);
        }
        return Ok(report);
    }
    let md = markdown.as_bytes();
    let ghost codes0 = Seq::<LintCode>::empty();
    let missing_control = !contains_bytes(md, "## Document Control".as_bytes());
    if let Err(e) = report_if(&mut report, missing_control, LintCode::MissingDocumentControl, path, Ghost(codes0)) {
        return Err(e);
    }
    let ghost codes1 = push_if(codes0, missing_control, LintCode::MissingDocumentControl);
    let missing_purpose = !contains_bytes(md, "## Purpose".as_bytes());
    if let Err(e) = report_if(&mut report, missing_purpose, LintCode::MissingPurpose, path, Ghost(codes1)) {
        return Err(e);
    }
    let ghost codes2 = push_if(codes1, missing_purpose, LintCode::MissingPurpose);
    let missing_criteria = !contains_bytes(md, "## Acceptance Criteria".as_bytes());
    if let Err(e) = report_if(&mut report, missing_criteria, LintCode::MissingAcceptanceCriteria, path, Ghost(codes2)) {
        return Err(e);
    }
    let ghost codes3 = push_if(codes2, missing_criteria, LintCode::MissingAcceptanceCriteria);
    let todo = contains_bytes(md, "TODO".as_bytes()) || contains_bytes(md, "todo!".as_bytes());
    if let Err(e) = report_if(&mut report, todo, LintCode::TodoMarker, path, Ghost(codes3)) {
        return Err(e);
    }
    let ghost codes4 = push_if(codes3, todo, LintCode::TodoMarker);
    let bad_fence = contains_bytes(md, "```mermaid".as_bytes()) && !contains_bytes(md, "```".as_bytes());
    if let Err(e) = report_if(&mut report, bad_fence, LintCode::DiagramSyntax, path, Ghost(codes4)) {
        return Err(e);
    }
    Ok(report)
}

/// The bytes of the fence "```" begin the bytes of "```mermaid".
proof fn lemma_fence_is_prefix_of_mermaid_fence()
    ensures
        "```".spec_bytes().is_prefix_of("```mermaid".spec_bytes()),
{
    let fence = "```";
    let open_fence = "```mermaid";
    reveal_strlit("```");
    reveal_strlit("```mermaid");
    assert(vstd::string::is_ascii(fence));
    assert(vstd::string::is_ascii(open_fence));
    vstd::string::is_ascii_spec_bytes(fence);
    vstd::string::is_ascii_spec_bytes(open_fence);
}

/// The lint never reports `DiagramSyntax`: a document that contains
/// "```mermaid" always contains "```".
pub proof fn law_lint_never_reports_diagram_syntax(markdown: Seq<u8>)
    ensures
        !lint_codes(markdown).contains(LintCode::DiagramSyntax),
        lint_codes(markdown).len() <= 4,
{
    if bytes_contain(markdown, "```mermaid".spec_bytes()) {
        lemma_fence_is_prefix_of_mermaid_fence();
        let fence = "```".spec_bytes();
        let open_fence = "```mermaid".spec_bytes();
        let at = choose|at: int| crate::text::occurs_at(markdown, open_fence, at);
        assert(markdown.subrange(at, at + fence.len()) =~= markdown.subrange(
            at,
            at + open_fence.len(),
        ).subrange(0, fence.len() as int));
        assert(crate::text::occurs_at(markdown, fence, at));
    }
    let codes = lint_codes(markdown);
    assert forall|i: int| 0 <= i < codes.len() implies codes[i] != LintCode::DiagramSyntax by {}
}

/// The lint never reports `InvalidPath` in a report: an invalid path ends
/// the lint with an error instead.
pub proof fn law_lint_codes_never_invalid_path(markdown: Seq<u8>)
    ensures
        !lint_codes(markdown).contains(LintCode::InvalidPath),
{
    let codes = lint_codes(markdown);
    assert forall|i: int| 0 <= i < codes.len() implies codes[i] != LintCode::InvalidPath by {}
}

/// With room for four findings, linting a document with a valid path always
/// succeeds.
pub proof fn law_lint_fits_four_findings(path: Seq<u8>, markdown: Seq<u8>, capacity: nat)
    requires
        path_check(path) is Ok,
        capacity >= 4,
    ensures
        lint_outcome(path, markdown, capacity) == Ok::<Seq<LintCode>, DocsError>(
            lint_codes(markdown),
        ),
{
    law_lint_never_reports_diagram_syntax(markdown);
}

/// A lint report has errors exactly when some reported code is not the TODO
/// marker, the only warning.
pub proof fn law_lint_errors_are_non_todo_codes<'a>(
    findings: Seq<LintFinding<'a>>,
    codes: Seq<LintCode>,
    path: &'a str,
)
    requires
        findings_for(findings, codes, path),
    ensures
        any_error(findings) <==> exists|i: int|
            0 <= i < codes.len() && #[trigger] codes[i] != LintCode::TodoMarker,
{
    if any_error(findings) {
        let i = choose|i: int|
            0 <= i < findings.len() && (#[trigger] findings[i]).severity == LintSeverity::Error;
        assert(findings[i].is_default_for(codes[i], path, 0));
    }
    if exists|i: int| 0 <= i < codes.len() && #[trigger] codes[i] != LintCode::TodoMarker {
        let i = choose|i: int| 0 <= i < codes.len() && #[trigger] codes[i] != LintCode::TodoMarker;
        assert(findings[i].is_default_for(codes[i], path, 0));
    }
}

/// Codes in strictly increasing order of their numbers.
pub open spec fn in_code_order(codes: Seq<LintCode>) -> bool {
    forall|i: int, j: int|
        0 <= i < j < codes.len() ==> (#[trigger] codes[i]).number_of() < (#[trigger] codes[j]).number_of()
}

proof fn lemma_push_if(codes: Seq<LintCode>, missing: bool, code: LintCode, c: LintCode)
    requires
        in_code_order(codes),
        forall|i: int| 0 <= i < codes.len() ==> (#[trigger] codes[i]).number_of() < code.number_of(),
    ensures
        push_if(codes, missing, code).contains(c) <==> (codes.contains(c) || (missing && c == code)),
        in_code_order(push_if(codes, missing, code)),
        forall|i: int|
            0 <= i < push_if(codes, missing, code).len() ==> (#[trigger] push_if(
                codes,
                missing,
                code,
            )[i]).number_of() <= code.number_of(),
{
    let pushed = push_if(codes, missing, code);
    if missing {
        if codes.contains(c) {
            let k = choose|k: int| 0 <= k < codes.len() && codes[k] == c;
            assert(pushed[k] == c);
        }
        if c == code {
            assert(pushed[codes.len() as int] == c);
        }
        if pushed.contains(c) {
            let k = choose|k: int| 0 <= k < pushed.len() && pushed[k] == c;
            if k < codes.len() {
                assert(codes[k] == c);
            }
        }
    }
}

/// The lint reports each missing section (document control, purpose,
/// acceptance criteria), and a TODO marker when the text contains `TODO` or
/// `todo!`, each exactly when that holds, in that order and at most once.
pub proof fn law_lint_reports_exactly_what_is_missing(markdown: Seq<u8>)
    ensures
        lint_codes(markdown).contains(LintCode::MissingDocumentControl) <==> !bytes_contain(
            markdown,
            "## Document Control".spec_bytes(),
        ),
        lint_codes(markdown).contains(LintCode::MissingPurpose) <==> !bytes_contain(
            markdown,
            "## Purpose".spec_bytes(),
        ),
        lint_codes(markdown).contains(LintCode::MissingAcceptanceCriteria) <==> !bytes_contain(
            markdown,
            "## Acceptance Criteria".spec_bytes(),
        ),
        lint_codes(markdown).contains(LintCode::TodoMarker) <==> (bytes_contain(
            markdown,
            "TODO".spec_bytes(),
        ) || bytes_contain(
        markdown,
        "todo!".spec_bytes(),
    )),
        in_code_order(lint_codes(markdown)),
{
    let m1 = !bytes_contain(markdown, "## Document Control".spec_bytes());
    let m2 = !bytes_contain(markdown, "## Purpose".spec_bytes());
    let m3 = !bytes_contain(markdown, "## Acceptance Criteria".spec_bytes());
    let m4 = bytes_contain(markdown, "TODO".spec_bytes()) || bytes_contain(
        markdown,
        "todo!".spec_bytes(),
    );
    let m5 = bytes_contain(markdown, "```mermaid".spec_bytes()) && !bytes_contain(
        markdown,
        "```".spec_bytes(),
    );
    law_lint_never_reports_diagram_syntax(markdown);
    let s0 = Seq::<LintCode>::empty();
    let s1 = push_if(s0, m1, LintCode::MissingDocumentControl);
    let s2 = push_if(s1, m2, LintCode::MissingPurpose);
    let s3 = push_if(s2, m3, LintCode::MissingAcceptanceCriteria);
    let s4 = push_if(s3, m4, LintCode::TodoMarker);
    assert forall|c: LintCode| #[trigger] s4.contains(c) <==> ((m1 && c == LintCode::MissingDocumentControl) || (m2 && c == LintCode::MissingPurpose) || (m3 && c == LintCode::MissingAcceptanceCriteria) || (m4 && c == LintCode::TodoMarker)) by {
        lemma_push_if(s0, m1, LintCode::MissingDocumentControl, c);
        lemma_push_if(s1, m2, LintCode::MissingPurpose, c);
        lemma_push_if(s2, m3, LintCode::MissingAcceptanceCriteria, c);
        lemma_push_if(s3, m4, LintCode::TodoMarker, c);
    }
    lemma_push_if(s0, m1, LintCode::MissingDocumentControl, LintCode::TodoMarker);
    lemma_push_if(s1, m2, LintCode::MissingPurpose, LintCode::TodoMarker);
    lemma_push_if(s2, m3, LintCode::MissingAcceptanceCriteria, LintCode::TodoMarker);
    lemma_push_if(s3, m4, LintCode::TodoMarker, LintCode::TodoMarker);
    lemma_push_if(s4, m5, LintCode::DiagramSyntax, LintCode::TodoMarker);
    lemma_push_if(s4, m5, LintCode::DiagramSyntax, LintCode::MissingDocumentControl);
    lemma_push_if(s4, m5, LintCode::DiagramSyntax, LintCode::MissingPurpose);
    lemma_push_if(s4, m5, LintCode::DiagramSyntax, LintCode::MissingAcceptanceCriteria);
    assert(lint_codes(markdown) == push_if(s4, m5, LintCode::DiagramSyntax));
    assert(s4.contains(LintCode::MissingDocumentControl) == m1);
    assert(s4.contains(LintCode::MissingPurpose) == m2);
    assert(s4.contains(LintCode::MissingAcceptanceCriteria) == m3);
    assert(s4.contains(LintCode::TodoMarker) == m4);
}

/// Linting a document with an invalid path never succeeds: it fails with the
/// path's own error, or for capacity when the report has no room. With a
/// valid path it succeeds exactly when the codes fit, and then reports them.
pub proof fn law_lint_outcome_rules(path: Seq<u8>, markdown: Seq<u8>, capacity: nat)
    ensures
        path_check(path) is Err && capacity > 0 ==> lint_outcome(path, markdown, capacity)
            == match path_check(path) {
            Err(e) => Err::<Seq<LintCode>, DocsError>(e),
            Ok(_) => Ok(Seq::<LintCode>::empty()),
        },
        path_check(path) is Err && capacity == 0 ==> lint_outcome(path, markdown, capacity)
            == Err::<Seq<LintCode>, DocsError>(DocsError::CapacityExceeded),
        path_check(path) is Ok ==> (lint_outcome(path, markdown, capacity) is Ok <==> lint_codes(
            markdown,
        ).len() <= capacity),
        path_check(path) is Ok && lint_codes(markdown).len() <= capacity ==> lint_outcome(
            path,
            markdown,
            capacity,
        ) == Ok::<Seq<LintCode>, DocsError>(lint_codes(markdown)),
        path_check(path) is Ok && lint_codes(markdown).len() > capacity ==> lint_outcome(
            path,
            markdown,
            capacity,
        ) == Err::<Seq<LintCode>, DocsError>(DocsError::CapacityExceeded),
{
}

/// Only the TODO marker is a warning; every other code is an error.
pub proof fn law_only_todo_is_a_warning(code: LintCode)
    ensures
        code.default_severity() == LintSeverity::Warning <==> code == LintCode::TodoMarker,
        code != LintCode::TodoMarker ==> code.default_severity() == LintSeverity::Error,
{
}

/// A finding is valid exactly when its path is valid and its message has
/// between 1 and 128 bytes.
pub proof fn law_finding_rules<'a>(finding: LintFinding<'a>)
    ensures
        finding.validation() is Ok <==> (path_check(finding.path.spec_bytes()) is Ok && 1
            <= finding.message.spec_bytes().len() <= 128),
        path_check(finding.path.spec_bytes()) is Err ==> finding.validation() == path_check(
            finding.path.spec_bytes(),
        ),
{
}

/// Adding a finding succeeds exactly when the report has room and the
/// finding is valid; a full report reports capacity first.
pub proof fn law_report_add_rules<'a>(
    findings: Seq<LintFinding<'a>>,
    finding: LintFinding<'a>,
    capacity: nat,
)
    ensures
        report_add_outcome(findings, finding, capacity) is Ok <==> (findings.len() < capacity
            && finding.validation() is Ok),
        findings.len() >= capacity ==> report_add_outcome(findings, finding, capacity) == Err::<
            (),
            DocsError,
        >(DocsError::CapacityExceeded),
        findings.len() < capacity ==> report_add_outcome(findings, finding, capacity)
            == finding.validation(),
{
}

/// Module boundary descriptor.
#[derive(Clone, Debug, PartialEq, Eq)]
pub struct LintDescriptor<'a> {
    /// Human-readable descriptor name.
    pub name: &'a str,
    /// Descriptor version.
    pub version: u32,
}

impl<'a> LintDescriptor<'a> {
    /// Creates a lint descriptor.
    pub fn new(name: &'a str, version: u32) -> (r: Self)
        ensures
            r == (LintDescriptor { name, version }),
    {
        LintDescriptor { name, version }
    }
}

} // verus!
