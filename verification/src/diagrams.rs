//! Diagram asset and link metadata.
//!
//! The first implementation focuses on Mermaid assets because the Alani spec
//! bundle already uses `.mmd` diagrams. Other formats are represented but not
//! parsed.

use vstd::prelude::*;
use vstd::string::{StrSliceExecFns, StringSliceAdditionalSpecFns};
use crate::text::{bytes_start_with, starts_with_bytes};
use crate::{
    chain, label_check, path_check, validate_label, validate_path, DocsError, DocsResult,
    MAX_DOC_LABEL_LEN,
};

verus! {

/// Diagram source kind.
#[derive(Clone, Copy, Debug, PartialEq, Eq, Structural)]
pub enum DiagramKind {
    /// Mermaid source.
    Mermaid,
    /// Graphviz DOT source.
    Graphviz,
    /// SVG asset.
    Svg,
}

impl DiagramKind {
    /// The stable wire number of each variant, counting from one.
    pub open spec fn number_of(self) -> u8 {
        match self {
            DiagramKind::Mermaid => 1,
            DiagramKind::Graphviz => 2,
            DiagramKind::Svg => 3,
        }
    }

    /// Returns the stable wire number of this variant.
    pub fn number(self) -> (r: u8)
        ensures
            r == self.number_of(),
    {
        match self {
            DiagramKind::Mermaid => 1,
            DiagramKind::Graphviz => 2,
            DiagramKind::Svg => 3,
        }
    }

    /// The stable label of each kind, as characters.
    pub open spec fn label_text(self) -> Seq<char> {
        match self {
            DiagramKind::Mermaid => "mermaid"@,
            DiagramKind::Graphviz => "graphviz"@,
            DiagramKind::Svg => "svg"@,
        }
    }

    /// Stable kind label.
    pub fn label(self) -> (r: &'static str)
        ensures
            r@ == self.label_text(),
    {
        match self {
            DiagramKind::Mermaid => "mermaid",
            DiagramKind::Graphviz => "graphviz",
            DiagramKind::Svg => "svg",
        }
    }
}

/// Diagram review or generation status.
#[derive(Clone, Copy, Debug, PartialEq, Eq, Structural)]
pub enum DiagramStatus {
    /// Draft diagram.
    Draft,
    /// Reviewed source.
    Reviewed,
    /// Generated artifact.
    Generated,
}

impl DiagramStatus {
    /// The stable wire number of each variant, counting from one.
    pub open spec fn number_of(self) -> u8 {
        match self {
            DiagramStatus::Draft => 1,
            DiagramStatus::Reviewed => 2,
            DiagramStatus::Generated => 3,
        }
    }

    /// Returns the stable wire number of this variant.
    pub fn number(self) -> (r: u8)
        ensures
            r == self.number_of(),
    {
        match self {
            DiagramStatus::Draft => 1,
            DiagramStatus::Reviewed => 2,
            DiagramStatus::Generated => 3,
        }
    }

    /// The stable label of each status, as characters.
    pub open spec fn label_text(self) -> Seq<char> {
        match self {
            DiagramStatus::Draft => "draft"@,
            DiagramStatus::Reviewed => "reviewed"@,
            DiagramStatus::Generated => "generated"@,
        }
    }

    /// Stable status label.
    pub fn label(self) -> (r: &'static str)
        ensures
            r@ == self.label_text(),
    {
        match self {
            DiagramStatus::Draft => "draft",
            DiagramStatus::Reviewed => "reviewed",
            DiagramStatus::Generated => "generated",
        }
    }
}

/// Whether a char has the Unicode `White_Space` property (PropList.txt),
/// the property that std's `char::is_whitespace` and `str::trim_start` use: U+0009..=U+000D,
/// U+0020, U+0085, U+00A0, U+1680, U+2000..=U+200A, U+2028, U+2029, U+202F,
/// U+205F and U+3000.
pub open spec fn white_space(c: char) -> bool {
    let u = c as u32;
    ||| 0x09 <= u <= 0x0d
    ||| u == 0x20
    ||| u == 0x85
    ||| u == 0xa0
    ||| u == 0x1680
    ||| 0x2000 <= u <= 0x200a
    ||| u == 0x2028
    ||| u == 0x2029
    ||| u == 0x202f
    ||| u == 0x205f
    ||| u == 0x3000
}

/// The `White_Space` test of `char::is_whitespace`, checked against the list.
fn is_white_space(c: char) -> (r: bool)
    ensures
        r == white_space(c),
{
    let u = c as u32;
    (0x09u32 <= u && u <= 0x0du32) || u == 0x20u32 || u == 0x85u32 || u == 0xa0u32 || u
        == 0x1680u32 || (0x2000u32 <= u && u <= 0x200au32) || u == 0x2028u32 || u == 0x2029u32
        || u == 0x202fu32 || u == 0x205fu32 || u == 0x3000u32
}

/// The white space trimmed is exactly the 25 `White_Space` code points:
/// tab through carriage return, space, NEL, no-break space, Ogham space
/// mark, the en quad through hair space block, line and paragraph
/// separators, narrow no-break space, medium mathematical space and the
/// ideographic space.
pub proof fn law_white_space_code_points(c: char)
    ensures
        white_space(c) <==> ('\t' <= c <= '\r' || c == ' ' || c == '\u{85}' || c == '\u{a0}' || c
            == '\u{1680}' || '\u{2000}' <= c <= '\u{200a}' || c == '\u{2028}' || c == '\u{2029}'
            || c == '\u{202f}' || c == '\u{205f}' || c == '\u{3000}'),
{
}

/// Number of leading white-space chars of `s`.
pub open spec fn leading_white_space(s: Seq<char>) -> nat
    decreases s.len(),
{
    if s.len() > 0 && white_space(s[0]) {
        1 + leading_white_space(s.drop_first())
    } else {
        0
    }
}

/// `s` without its leading white space, as `str::trim_start` returns it.
pub open spec fn trim_start(s: Seq<char>) -> Seq<char> {
    s.skip(leading_white_space(s) as int)
}

/// The bytes begin with one of the Mermaid diagram declarations.
pub open spec fn known_mermaid_preamble(b: Seq<u8>) -> bool {
    ||| bytes_start_with(b, "graph ".spec_bytes())
    ||| bytes_start_with(b, "flowchart ".spec_bytes())
    ||| bytes_start_with(b, "sequenceDiagram".spec_bytes())
    ||| bytes_start_with(b, "stateDiagram".spec_bytes())
    ||| bytes_start_with(b, "classDiagram".spec_bytes())
    ||| bytes_start_with(b, "erDiagram".spec_bytes())
    ||| bytes_start_with(b, "journey".spec_bytes())
    ||| bytes_start_with(b, "gantt".spec_bytes())
    ||| bytes_start_with(b, "pie".spec_bytes())
}

/// Outcome of Mermaid source validation: the source must be non-empty and,
/// after its leading white space, begin with a known declaration.
pub open spec fn mermaid_validation(source: &str) -> DocsResult<()> {
    if source.spec_bytes().len() == 0 {
        Err(DocsError::MissingField)
    } else if known_mermaid_preamble(vstd::utf8::encode_utf8(trim_start(source@))) {
        Ok(())
    } else {
        Err(DocsError::InvalidDiagram)
    }
}

/// Returns `s` without its leading white space.
fn trim_leading_white_space(s: &str) -> (r: &str)
    ensures
        r@ == trim_start(s@),
{
    let n = s.unicode_len();
    let mut k: usize = 0;
    assert(s@.skip(0) =~= s@);
    while k < n && is_white_space(s.get_char(k))
        invariant
            n == s@.len(),
            k <= n,
            leading_white_space(s@) == k + leading_white_space(s@.skip(k as int)),
        decreases n - k,
    {
        let ghost rest = s@.skip(k as int);
        assert(rest[0] == s@[k as int]);
        assert(rest.drop_first() =~= s@.skip(k + 1));
        k = k + 1;
    }
    proof {
        let rest = s@.skip(k as int);
        if k < n {
            assert(rest[0] == s@[k as int]);
        }
        assert(leading_white_space(rest) == 0);
        assert(s@.subrange(k as int, n as int) =~= s@.skip(k as int));
    }
    s.substring_char(k, n)
}

/// Validates a minimal Mermaid source preamble.
pub fn validate_mermaid_source(source: &str) -> (r: DocsResult<()>)
    ensures
        r == mermaid_validation(source),
{
    if source.as_bytes().len() == 0 {
        return Err(DocsError::MissingField);
    }
    let trimmed = trim_leading_white_space(source);
    let b = trimmed.as_bytes();
    if starts_with_bytes(b, "graph ".as_bytes()) || starts_with_bytes(b, "flowchart ".as_bytes())
        || starts_with_bytes(b, "sequenceDiagram".as_bytes()) || starts_with_bytes(
        b,
        "stateDiagram".as_bytes(),
    ) || starts_with_bytes(b, "classDiagram".as_bytes()) || starts_with_bytes(
        b,
        "erDiagram".as_bytes(),
    ) || starts_with_bytes(b, "journey".as_bytes()) || starts_with_bytes(b, "gantt".as_bytes())
        || starts_with_bytes(b, "pie".as_bytes()) {
        Ok(())
    } else {
        Err(DocsError::InvalidDiagram)
    }
}

/// Borrowed diagram source asset.
#[derive(Clone, Copy, Debug, PartialEq, Eq)]
pub struct DiagramAsset<'a> {
    /// Repository-relative asset path.
    pub path: &'a str,
    /// Diagram kind.
    pub kind: DiagramKind,
    /// Source text or generated artifact text.
    pub source: &'a str,
    /// Review or generation status.
    pub status: DiagramStatus,
}

impl<'a> DiagramAsset<'a> {
    /// Outcome of asset validation: a valid path, a non-empty source, and for
    /// Mermaid assets a known declaration.
    pub open spec fn validation(self) -> DocsResult<()> {
        chain(
            path_check(self.path.spec_bytes()),
            if self.source.spec_bytes().len() == 0 {
                Err(DocsError::MissingField)
            } else if self.kind == DiagramKind::Mermaid {
                mermaid_validation(self.source)
            } else {
                Ok(())
            },
        )
    }

    /// Creates a diagram asset.
    pub fn new(path: &'a str, kind: DiagramKind, source: &'a str, status: DiagramStatus) -> (r:
        Self)
        ensures
            r == (DiagramAsset { path, kind, source, status }),
    {
        DiagramAsset { path, kind, source, status }
    }

    /// Validates path and source metadata.
    pub fn validate(self) -> (r: DocsResult<()>)
        ensures
            r == self.validation(),
    {
        if let Err(e) = validate_path(self.path) {
            return Err(e);
        }
        if self.source.as_bytes().len() == 0 {
            return Err(DocsError::MissingField);
        }
        match self.kind {
            DiagramKind::Mermaid => validate_mermaid_source(self.source),
            _ => Ok(()),
        }
    }
}

/// Only Mermaid sources are parsed: an asset of another kind is never
/// rejected as an invalid diagram.
pub proof fn law_only_mermaid_is_parsed<'a>(asset: DiagramAsset<'a>)
    requires
        asset.kind != DiagramKind::Mermaid,
    ensures
        asset.validation() != Err::<(), DocsError>(DocsError::InvalidDiagram),
{
}

/// Each of the nine Mermaid declarations is recognised at the start of any
/// text.
pub proof fn law_every_declaration_is_recognised(rest: Seq<u8>)
    ensures
        known_mermaid_preamble("graph ".spec_bytes() + rest),
        known_mermaid_preamble("flowchart ".spec_bytes() + rest),
        known_mermaid_preamble("sequenceDiagram".spec_bytes() + rest),
        known_mermaid_preamble("stateDiagram".spec_bytes() + rest),
        known_mermaid_preamble("classDiagram".spec_bytes() + rest),
        known_mermaid_preamble("erDiagram".spec_bytes() + rest),
        known_mermaid_preamble("journey".spec_bytes() + rest),
        known_mermaid_preamble("gantt".spec_bytes() + rest),
        known_mermaid_preamble("pie".spec_bytes() + rest),
{
    assert(("graph ".spec_bytes() + rest).subrange(0, "graph ".spec_bytes().len() as int)
        =~= "graph ".spec_bytes());
    assert(("flowchart ".spec_bytes() + rest).subrange(0, "flowchart ".spec_bytes().len() as int)
        =~= "flowchart ".spec_bytes());
    assert(("sequenceDiagram".spec_bytes() + rest).subrange(
        0,
        "sequenceDiagram".spec_bytes().len() as int,
    ) =~= "sequenceDiagram".spec_bytes());
    assert(("stateDiagram".spec_bytes() + rest).subrange(
        0,
        "stateDiagram".spec_bytes().len() as int,
    ) =~= "stateDiagram".spec_bytes());
    assert(("classDiagram".spec_bytes() + rest).subrange(
        0,
        "classDiagram".spec_bytes().len() as int,
    ) =~= "classDiagram".spec_bytes());
    assert(("erDiagram".spec_bytes() + rest).subrange(0, "erDiagram".spec_bytes().len() as int)
        =~= "erDiagram".spec_bytes());
    assert(("journey".spec_bytes() + rest).subrange(0, "journey".spec_bytes().len() as int)
        =~= "journey".spec_bytes());
    assert(("gantt".spec_bytes() + rest).subrange(0, "gantt".spec_bytes().len() as int)
        =~= "gantt".spec_bytes());
    assert(("pie".spec_bytes() + rest).subrange(0, "pie".spec_bytes().len() as int)
        =~= "pie".spec_bytes());
}

/// Only the nine Mermaid declarations are recognised: recognised text begins
/// with one of them.
pub proof fn law_only_declarations_are_recognised(b: Seq<u8>)
    requires
        known_mermaid_preamble(b),
    ensures
        exists|rest: Seq<u8>|
            b == "graph ".spec_bytes() + rest || b == "flowchart ".spec_bytes() + rest || b
                == "sequenceDiagram".spec_bytes() + rest || b == "stateDiagram".spec_bytes()
                + rest || b == "classDiagram".spec_bytes() + rest || b == "erDiagram".spec_bytes()
                + rest || b == "journey".spec_bytes() + rest || b == "gantt".spec_bytes() + rest
                || b == "pie".spec_bytes() + rest,
{
    let decls = seq![
        "graph ".spec_bytes(),
        "flowchart ".spec_bytes(),
        "sequenceDiagram".spec_bytes(),
        "stateDiagram".spec_bytes(),
        "classDiagram".spec_bytes(),
        "erDiagram".spec_bytes(),
        "journey".spec_bytes(),
        "gantt".spec_bytes(),
        "pie".spec_bytes(),
    ];
    let k = choose|k: int| 0 <= k < 9 && bytes_start_with(b, decls[k]);
    let d = decls[k];
    let rest = b.skip(d.len() as int);
    assert(b =~= d + rest);
}

/// Trimming removes only white space, removes all of the leading white
/// space, and keeps the rest of the text unchanged.
pub proof fn law_trim_removes_exactly_leading_white_space(s: Seq<char>)
    ensures
        leading_white_space(s) <= s.len(),
        trim_start(s).len() <= s.len(),
        trim_start(s) =~= s.subrange(s.len() - trim_start(s).len(), s.len() as int),
        forall|i: int| 0 <= i < s.len() - trim_start(s).len() ==> white_space(#[trigger] s[i]),
        trim_start(s).len() > 0 ==> !white_space(trim_start(s)[0]),
    decreases s.len(),
{
    if s.len() > 0 && white_space(s[0]) {
        let rest = s.drop_first();
        law_trim_removes_exactly_leading_white_space(rest);
        assert(leading_white_space(s) == 1 + leading_white_space(rest));
        assert(trim_start(s) =~= trim_start(rest));
        assert forall|i: int| 0 <= i < s.len() - trim_start(s).len() implies white_space(
            #[trigger] s[i],
        ) by {
            if i > 0 {
                assert(s[i] == rest[i - 1]);
            }
        }
    } else {
        assert(trim_start(s) =~= s);
    }
}

/// A Mermaid source is valid exactly when it is non-empty and, once its
/// leading white space is trimmed, begins with a declaration; an empty source
/// is missing and any other is an invalid diagram.
pub proof fn law_mermaid_rules(source: &str)
    ensures
        source.spec_bytes().len() == 0 ==> mermaid_validation(source) == Err::<(), DocsError>(
            DocsError::MissingField,
        ),
        source.spec_bytes().len() > 0 ==> (mermaid_validation(source) is Ok <==> known_mermaid_preamble(
            vstd::utf8::encode_utf8(trim_start(source@)),
        )),
        source.spec_bytes().len() > 0 && mermaid_validation(source) is Err ==> mermaid_validation(
            source,
        ) == Err::<(), DocsError>(DocsError::InvalidDiagram),
        forall|rest: Seq<u8>|
            source.spec_bytes().len() > 0 && #[trigger] vstd::utf8::encode_utf8(trim_start(source@))
                == "classDiagram".spec_bytes() + rest ==> mermaid_validation(source) is Ok,
{
    assert forall|rest: Seq<u8>|
        source.spec_bytes().len() > 0 && #[trigger] vstd::utf8::encode_utf8(trim_start(source@))
            == "classDiagram".spec_bytes() + rest implies mermaid_validation(source) is Ok by {
        law_every_declaration_is_recognised(rest);
    }
}

/// An asset is valid exactly when its path is valid, its source is
/// non-empty, and, for a Mermaid asset, the source is a valid Mermaid source.
pub proof fn law_asset_rules<'a>(asset: DiagramAsset<'a>)
    ensures
        asset.validation() is Ok <==> (path_check(asset.path.spec_bytes()) is Ok
            && asset.source.spec_bytes().len() > 0 && (asset.kind == DiagramKind::Mermaid
            ==> mermaid_validation(asset.source) is Ok)),
        path_check(asset.path.spec_bytes()) is Err ==> asset.validation() == path_check(
            asset.path.spec_bytes(),
        ),
{
}

/// A link is valid exactly when both paths are valid and the anchor is
/// either empty or a valid label of at most 128 bytes.
pub proof fn law_link_rules<'a>(link: DiagramLink<'a>)
    ensures
        link.validation() is Ok <==> (path_check(link.document_path.spec_bytes()) is Ok
            && path_check(link.diagram_path.spec_bytes()) is Ok && (link.anchor.spec_bytes().len()
            == 0 || label_check(link.anchor.spec_bytes(), 128) is Ok)),
        path_check(link.document_path.spec_bytes()) is Err ==> link.validation() == path_check(
            link.document_path.spec_bytes(),
        ),
{
}

/// Link between a document and a diagram asset.
#[derive(Clone, Copy, Debug, PartialEq, Eq)]
pub struct DiagramLink<'a> {
    /// Repository-relative document path.
    pub document_path: &'a str,
    /// Repository-relative diagram asset path.
    pub diagram_path: &'a str,
    /// Optional heading anchor.
    pub anchor: &'a str,
}

impl<'a> DiagramLink<'a> {
    /// Outcome of link validation: both paths valid, and the anchor, when
    /// present, a valid label.
    pub open spec fn validation(self) -> DocsResult<()> {
        chain(
            path_check(self.document_path.spec_bytes()),
            chain(
                path_check(self.diagram_path.spec_bytes()),
                if self.anchor.spec_bytes().len() == 0 {
                    Ok(())
                } else {
                    label_check(self.anchor.spec_bytes(), MAX_DOC_LABEL_LEN as nat)
                },
            ),
        )
    }

    /// Creates a diagram link.
    pub fn new(document_path: &'a str, diagram_path: &'a str) -> (r: Self)
        ensures
            r.document_path == document_path,
            r.diagram_path == diagram_path,
            r.anchor@ == Seq::<char>::empty(),
    {
        proof {
            reveal_strlit("");
        }
        DiagramLink { document_path, diagram_path, anchor: "" }
    }

    /// Sets a heading anchor.
    pub fn with_anchor(self, anchor: &'a str) -> (r: Self)
        ensures
            r == (DiagramLink { anchor, ..self }),
    {
        let mut link = self;
        link.anchor = anchor;
        link
    }

    /// Validates linked paths and optional anchor metadata.
    pub fn validate(self) -> (r: DocsResult<()>)
        ensures
            r == self.validation(),
    {
        if let Err(e) = validate_path(self.document_path) {
            return Err(e);
        }
        if let Err(e) = validate_path(self.diagram_path) {
            return Err(e);
        }
        if self.anchor.as_bytes().len() != 0 {
            return validate_label(self.anchor, MAX_DOC_LABEL_LEN);
        }
        Ok(())
    }
}

/// Module boundary descriptor.
#[derive(Clone, Debug, PartialEq, Eq)]
pub struct DiagramDescriptor<'a> {
    /// Human-readable descriptor name.
    pub name: &'a str,
    /// Descriptor version.
    pub version: u32,
}

impl<'a> DiagramDescriptor<'a> {
    /// Creates a diagram descriptor.
    pub fn new(name: &'a str, version: u32) -> (r: Self)
        ensures
            r == (DiagramDescriptor { name, version }),
    {
        DiagramDescriptor { name, version }
    }
}

} // verus!
