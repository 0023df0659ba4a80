use alani_docs::{
    docs_catalog, lint_markdown, validate_label, validate_mermaid_source, validate_path,
    validate_title, AdrDescriptor, AdrIndex, AdrRecord, AdrStatus, DiagramAsset,
    DiagramDescriptor, DiagramKind, DiagramLink, DiagramStatus, DocsCatalog, DocsError,
    DocumentControl, DocumentKind, DocumentStatus, LintCode, LintDescriptor, LintFinding,
    LintReport, LintSeverity, RenderDescriptor, RenderFormat, RenderOptions, RenderRequest,
    RenderedDocument, TemplateDescriptor, DOCS_KNOWN_FEATURES, MAX_DOC_LABEL_LEN,
    MAX_DOC_PATH_LEN, MAX_DOC_TITLE_LEN, TEMPLATE_SECTIONS,
};

fn record(id: u32, status: AdrStatus) -> AdrRecord<'static> {
    AdrRecord::new(
        id,
        "Decision title",
        "docs-team",
        status,
        "Some context.",
        "Some decision.",
        "Some consequences.",
    )
}

fn control_with_path(path: &'static str) -> DocumentControl<'static> {
    DocumentControl::new(
        "Title",
        "DOC-1",
        DocumentKind::Rfc,
        DocumentStatus::Review,
        "owner",
        "1.0",
        path,
    )
}

#[test]
fn every_error_has_its_reason_label() {
    assert_eq!(DocsError::MissingField.reason(), "missing_field");
    assert_eq!(DocsError::FieldTooLong.reason(), "field_too_long");
    assert_eq!(DocsError::InvalidLabel.reason(), "invalid_label");
    assert_eq!(DocsError::InvalidStatus.reason(), "invalid_status");
    assert_eq!(DocsError::MissingSection.reason(), "missing_section");
    assert_eq!(DocsError::InvalidDiagram.reason(), "invalid_diagram");
    assert_eq!(DocsError::UnsupportedFormat.reason(), "unsupported_format");
    assert_eq!(DocsError::CapacityExceeded.reason(), "capacity_exceeded");
    assert_eq!(DocsError::Duplicate.reason(), "duplicate");
    assert_eq!(DocsError::NotFound.reason(), "not_found");
    assert_eq!(DocsError::ReservedBits.reason(), "reserved_bits");
}

#[test]
fn every_enum_has_its_stable_label() {
    assert_eq!(DocumentKind::Adr.label(), "adr");
    assert_eq!(DocumentKind::Readme.label(), "readme");
    assert_eq!(DocumentKind::Runbook.label(), "runbook");
    assert_eq!(DocumentStatus::Superseded.label(), "superseded");
    assert_eq!(AdrStatus::Proposed.label(), "proposed");
    assert_eq!(AdrStatus::Deprecated.label(), "deprecated");
    assert_eq!(LintSeverity::Warning.label(), "warning");
    assert_eq!(LintCode::InvalidPath.label(), "invalid_path");
    assert_eq!(LintCode::MissingAcceptanceCriteria.label(), "missing_acceptance_criteria");
    assert_eq!(RenderFormat::HtmlFragment.label(), "html_fragment");
    assert_eq!(RenderFormat::JsonSummary.label(), "json_summary");
    assert_eq!(DiagramKind::Graphviz.label(), "graphviz");
    assert_eq!(DiagramStatus::Generated.label(), "generated");
}

#[test]
fn document_status_currency_matches_adr_status() {
    assert!(DocumentStatus::Draft.is_current());
    assert!(DocumentStatus::Accepted.is_current());
    assert!(!DocumentStatus::Superseded.is_current());
    assert!(!DocumentStatus::Deprecated.is_current());
    assert_eq!(AdrStatus::Proposed.document_status(), DocumentStatus::Review);
    assert!(AdrStatus::Accepted.document_status().is_current());
    assert!(!AdrStatus::Superseded.document_status().is_current());
}

#[test]
fn title_limits() {
    assert_eq!(validate_title(""), Err(DocsError::MissingField));
    let max = "t".repeat(MAX_DOC_TITLE_LEN);
    assert_eq!(validate_title(&max), Ok(()));
    let long = "t".repeat(MAX_DOC_TITLE_LEN + 1);
    assert_eq!(validate_title(&long), Err(DocsError::FieldTooLong));
    // Length counts bytes: 81 two-byte chars are 162 bytes.
    let wide = "é".repeat(81);
    assert_eq!(validate_title(&wide), Err(DocsError::FieldTooLong));
}

#[test]
fn label_limits_and_characters() {
    assert_eq!(validate_label("", 8), Err(DocsError::MissingField));
    assert_eq!(validate_label("abcdefgh", 8), Ok(()));
    assert_eq!(validate_label("abcdefghi", 8), Err(DocsError::FieldTooLong));
    assert_eq!(validate_label("A-z_0:9.@#/", MAX_DOC_LABEL_LEN), Ok(()));
    assert_eq!(validate_label("with space", MAX_DOC_LABEL_LEN), Err(DocsError::InvalidLabel));
    assert_eq!(validate_label("caf\u{e9}", MAX_DOC_LABEL_LEN), Err(DocsError::InvalidLabel));
    assert_eq!(validate_label("x+y", MAX_DOC_LABEL_LEN), Err(DocsError::InvalidLabel));
}

#[test]
fn path_rules() {
    assert_eq!(validate_path("docs/a.md"), Ok(()));
    assert_eq!(validate_path("/docs/a.md"), Err(DocsError::InvalidLabel));
    assert_eq!(validate_path("docs/../a.md"), Err(DocsError::InvalidLabel));
    assert_eq!(validate_path("docs/a..md"), Err(DocsError::InvalidLabel));
    assert_eq!(validate_path(""), Err(DocsError::MissingField));
    let long = "a".repeat(MAX_DOC_PATH_LEN + 1);
    assert_eq!(validate_path(&long), Err(DocsError::FieldTooLong));
    let max = "a".repeat(MAX_DOC_PATH_LEN);
    assert_eq!(validate_path(&max), Ok(()));
}

#[test]
fn document_control_reports_first_failing_field() {
    let empty_title = DocumentControl::new(
        "",
        "bad id",
        DocumentKind::Api,
        DocumentStatus::Draft,
        "owner",
        "1",
        "/abs",
    );
    assert_eq!(empty_title.validate(), Err(DocsError::MissingField));
    assert_eq!(control_with_path("docs/x.md").validate(), Ok(()));
    assert_eq!(control_with_path("docs/../x.md").validate(), Err(DocsError::InvalidLabel));
}

#[test]
fn catalog_rejects_reserved_bits_and_missing_fields() {
    let current = docs_catalog();
    assert_eq!(current.features, DOCS_KNOWN_FEATURES);
    assert_eq!(current.features, 0x1f);
    let reserved = DocsCatalog { features: 1 << 5, ..current };
    assert_eq!(reserved.validate(), Err(DocsError::ReservedBits));
    let unnamed = DocsCatalog { repository: "", ..current };
    assert_eq!(unnamed.validate(), Err(DocsError::MissingField));
    let no_paths = DocsCatalog { max_path_len: 0, ..current };
    assert_eq!(no_paths.validate(), Err(DocsError::MissingField));
}

#[test]
fn adr_record_validation_rules() {
    assert_eq!(record(1, AdrStatus::Accepted).validate(), Ok(()));
    assert_eq!(record(0, AdrStatus::Accepted).validate(), Err(DocsError::MissingField));
    assert_eq!(record(1, AdrStatus::Superseded).validate(), Err(DocsError::InvalidStatus));
    assert_eq!(record(1, AdrStatus::Superseded).superseded_by(2).validate(), Ok(()));
    assert_eq!(record(1, AdrStatus::Accepted).superseded_by(2).validate(), Err(DocsError::InvalidStatus));
    assert_eq!(record(1, AdrStatus::Accepted).supersedes(7).validate(), Ok(()));
    assert_eq!(record(1, AdrStatus::Accepted).supersedes(7).supersedes, 7);
    let bad_owner = AdrRecord { owner: "docs team", ..record(1, AdrStatus::Proposed) };
    assert_eq!(bad_owner.validate(), Err(DocsError::InvalidLabel));
}

#[test]
fn adr_document_control_block() {
    let control = record(4, AdrStatus::Proposed).document_control("docs/adr/0004.md", "1.0");
    assert_eq!(control.document_id, "adr");
    assert_eq!(control.kind, DocumentKind::Adr);
    assert_eq!(control.status, DocumentStatus::Review);
    assert_eq!(control.validate(), Ok(()));
    let bad = record(4, AdrStatus::Proposed).document_control("/abs.md", "1.0");
    assert_eq!(bad.validate(), Err(DocsError::InvalidLabel));
}

#[test]
fn adr_index_capacity_validation_and_lookup() {
    let mut index = AdrIndex::<2>::new();
    assert!(index.is_empty());
    assert_eq!(index.find(1), None);
    assert_eq!(index.add(record(0, AdrStatus::Accepted)), Err(DocsError::MissingField));
    assert!(index.is_empty());
    assert_eq!(index.add(record(1, AdrStatus::Proposed)), Ok(()));
    assert_eq!(index.add(record(1, AdrStatus::Deprecated)), Err(DocsError::Duplicate));
    assert_eq!(index.add(record(2, AdrStatus::Deprecated)), Ok(()));
    assert_eq!(index.add(record(3, AdrStatus::Accepted)), Err(DocsError::CapacityExceeded));
    assert_eq!(index.len(), 2);
    assert_eq!(index.current_count(), 1);
    assert_eq!(index.find(2), Some(record(2, AdrStatus::Deprecated)));
    assert_eq!(index.find(1), Some(record(1, AdrStatus::Proposed)));
    assert_eq!(index.find(3), None);
    let default: AdrIndex<'static, 3> = Default::default();
    assert_eq!(default.len(), 0);
}

#[test]
fn adr_second_add_rejected_when_full() {
    let mut index = AdrIndex::<1>::new();
    assert_eq!(index.add(record(5, AdrStatus::Accepted)), Ok(()));
    assert_eq!(index.add(record(5, AdrStatus::Accepted)), Err(DocsError::CapacityExceeded));
    let mut empty = AdrIndex::<0>::new();
    assert_eq!(empty.add(record(5, AdrStatus::Accepted)), Err(DocsError::CapacityExceeded));
}

#[test]
fn lint_finding_defaults_and_validation() {
    let finding = LintFinding::new(LintCode::TodoMarker, "docs/a.md", 12);
    assert_eq!(finding.severity, LintSeverity::Warning);
    assert_eq!(finding.message, "todo_marker");
    assert_eq!(finding.line, 12);
    assert_eq!(finding.validate(), Ok(()));
    assert_eq!(LintCode::DiagramSyntax.severity(), LintSeverity::Error);
    let bad = LintFinding::new(LintCode::InvalidPath, "/abs.md", 0);
    assert_eq!(bad.validate(), Err(DocsError::InvalidLabel));
    let silent = LintFinding { message: "", ..finding };
    assert_eq!(silent.validate(), Err(DocsError::MissingField));
}

#[test]
fn lint_report_capacity_and_indexing() {
    let mut report = LintReport::<1>::new();
    let finding = LintFinding::new(LintCode::TodoMarker, "docs/a.md", 1);
    assert_eq!(report.add(LintFinding::new(LintCode::TodoMarker, "/bad", 1)), Err(DocsError::InvalidLabel));
    assert_eq!(report.add(finding), Ok(()));
    assert!(!report.has_errors());
    assert_eq!(report.add(finding), Err(DocsError::CapacityExceeded));
    assert_eq!(report.finding(0), Some(finding));
    assert_eq!(report.finding(1), None);
    let default: LintReport<'static, 2> = Default::default();
    assert!(default.is_empty());
}

#[test]
fn lint_invalid_path_ends_with_the_path_error() {
    let result = lint_markdown::<4>("/abs.md", "## Document Control");
    assert_eq!(result.err(), Some(DocsError::InvalidLabel));
    let result = lint_markdown::<4>("", "## Document Control");
    assert_eq!(result.err(), Some(DocsError::MissingField));
    let result = lint_markdown::<0>("/abs.md", "## Document Control");
    assert_eq!(result.err(), Some(DocsError::CapacityExceeded));
}

#[test]
fn lint_capacity_and_markers() {
    let result = lint_markdown::<2>("docs/a.md", "# nothing here");
    assert_eq!(result.err(), Some(DocsError::CapacityExceeded));
    let report = lint_markdown::<4>("docs/a.md", "todo! TODO").unwrap();
    assert_eq!(report.len(), 4);
    assert_eq!(report.finding(3).unwrap().code, LintCode::TodoMarker);
    let warning_only = lint_markdown::<4>(
        "docs/a.md",
        "## Document Control\n## Purpose\n## Acceptance Criteria\ntodo!()",
    )
    .unwrap();
    assert_eq!(warning_only.len(), 1);
    assert!(!warning_only.has_errors());
}

#[test]
fn lint_never_reports_diagram_syntax() {
    let report = lint_markdown::<8>(
        "docs/a.md",
        "## Document Control\n## Purpose\n## Acceptance Criteria\n```mermaid\ngraph TD\n",
    )
    .unwrap();
    assert!(report.is_empty());
}

#[test]
fn render_options_defaults_and_validation() {
    let markdown = RenderOptions::markdown();
    assert_eq!(markdown.format, RenderFormat::Markdown);
    assert!(!markdown.include_toc);
    assert!(markdown.redact_sensitive);
    assert_eq!(markdown.max_output_bytes, 0);
    for format in [
        RenderFormat::Markdown,
        RenderFormat::HtmlFragment,
        RenderFormat::PlainText,
        RenderFormat::JsonSummary,
    ] {
        assert_eq!(RenderOptions::new(format).validate(), Ok(()));
    }
    let toc_html = RenderOptions { include_toc: true, ..RenderOptions::new(RenderFormat::HtmlFragment) };
    assert_eq!(toc_html.validate(), Ok(()));
}

#[test]
fn render_request_errors_and_output() {
    let control = control_with_path("docs/r.md");
    let empty = RenderRequest::new(control, "", RenderOptions::markdown());
    assert_eq!(empty.validate(), Err(DocsError::MissingField));
    let limited = RenderRequest::new(control, "12345", RenderOptions::markdown().with_max_output_bytes(4));
    assert_eq!(limited.render(), Err(DocsError::FieldTooLong));
    let exact = RenderRequest::new(control, "1234", RenderOptions::markdown().with_max_output_bytes(4));
    let doc = exact.render().unwrap();
    assert_eq!(doc.bytes, 4);
    assert_eq!(doc.body, "1234");
    assert!(doc.redacted);
    assert_eq!(doc.validate(), Ok(()));
    let json_toc = RenderOptions { include_toc: true, ..RenderOptions::new(RenderFormat::JsonSummary) };
    assert_eq!(RenderRequest::new(control, "x", json_toc).render(), Err(DocsError::UnsupportedFormat));
    let bad_control = RenderRequest::new(control_with_path("/abs"), "x", RenderOptions::markdown());
    assert_eq!(bad_control.render(), Err(DocsError::InvalidLabel));
}

#[test]
fn rendered_document_validation() {
    let doc = RenderedDocument {
        title: "T",
        format: RenderFormat::PlainText,
        body: "abc",
        bytes: 2,
        redacted: false,
    };
    assert_eq!(doc.validate(), Err(DocsError::MissingField));
    assert_eq!(RenderedDocument { bytes: 3, ..doc }.validate(), Ok(()));
    assert_eq!(RenderedDocument { title: "", ..doc }.validate(), Err(DocsError::MissingField));
}

#[test]
fn template_descriptor_validation() {
    let template = TemplateDescriptor::new("runbook");
    assert_eq!(template.sections.len(), TEMPLATE_SECTIONS.len());
    assert_eq!(template.sections[0], "Document Control");
    assert_eq!(TemplateDescriptor::new("").validate(), Err(DocsError::MissingField));
    let empty: &'static [&'static str] = &[];
    let no_sections = TemplateDescriptor { name: "x", sections: empty };
    assert_eq!(no_sections.validate(), Err(DocsError::MissingSection));
}

#[test]
fn mermaid_preamble_after_unicode_white_space() {
    assert_eq!(validate_mermaid_source(""), Err(DocsError::MissingField));
    assert_eq!(validate_mermaid_source("   "), Err(DocsError::InvalidDiagram));
    assert_eq!(validate_mermaid_source("  \n\tgraph TD"), Ok(()));
    assert_eq!(validate_mermaid_source("\u{a0}\u{3000}pie title x"), Ok(()));
    assert_eq!(validate_mermaid_source("graphTD"), Err(DocsError::InvalidDiagram));
    assert_eq!(validate_mermaid_source("sequenceDiagram"), Ok(()));
    assert_eq!(validate_mermaid_source("x graph TD"), Err(DocsError::InvalidDiagram));
}

#[test]
fn diagram_assets_of_other_kinds_are_not_parsed() {
    let svg = DiagramAsset::new("docs/a.svg", DiagramKind::Svg, "<svg/>", DiagramStatus::Generated);
    assert_eq!(svg.validate(), Ok(()));
    let empty = DiagramAsset::new("docs/a.svg", DiagramKind::Svg, "", DiagramStatus::Generated);
    assert_eq!(empty.validate(), Err(DocsError::MissingField));
    let bad = DiagramAsset::new("docs/a.mmd", DiagramKind::Mermaid, "<svg/>", DiagramStatus::Draft);
    assert_eq!(bad.validate(), Err(DocsError::InvalidDiagram));
}

#[test]
fn diagram_link_anchor_rules() {
    let link = DiagramLink::new("docs/a.md", "docs/a.mmd");
    assert_eq!(link.anchor, "");
    assert_eq!(link.validate(), Ok(()));
    assert_eq!(link.with_anchor("has space").validate(), Err(DocsError::InvalidLabel));
    assert_eq!(DiagramLink::new("docs/a.md", "../a.mmd").validate(), Err(DocsError::InvalidLabel));
}

#[test]
fn descriptors_keep_their_fields() {
    assert_eq!(AdrDescriptor::new("adr", 1).version, 1);
    assert_eq!(LintDescriptor::new("lint", 2).name, "lint");
    assert_eq!(RenderDescriptor::new("render", 3).version, 3);
    assert_eq!(DiagramDescriptor::new("diagrams", 4).name, "diagrams");
}

#[test]
fn variants_keep_their_stable_numbers() {
    assert_eq!(DocumentKind::Spec.number(), 1);
    assert_eq!(DocumentKind::Readme.number(), 6);
    assert_eq!(DocumentStatus::Draft.number(), 1);
    assert_eq!(DocumentStatus::Deprecated.number(), 5);
    assert_eq!(AdrStatus::Proposed.number(), 1);
    assert_eq!(AdrStatus::Deprecated.number(), 4);
    assert_eq!(LintSeverity::Info.number(), 1);
    assert_eq!(LintSeverity::Error.number(), 3);
    assert_eq!(LintCode::TodoMarker.number(), 4u16);
    assert_eq!(LintCode::InvalidPath.number(), 6u16);
    assert_eq!(RenderFormat::JsonSummary.number(), 4);
    assert_eq!(DiagramKind::Svg.number(), 3);
    assert_eq!(DiagramStatus::Reviewed.number(), 2);
}

#[test]
fn unicode_white_space_is_trimmed_but_other_chars_are_not() {
    assert_eq!(validate_mermaid_source("\u{85}\u{2028}\u{202f}\u{205f}\u{1680}gantt"), Ok(()));
    assert_eq!(validate_mermaid_source("\u{200b}gantt"), Err(DocsError::InvalidDiagram));
    assert_eq!(validate_mermaid_source("\u{180e}gantt"), Err(DocsError::InvalidDiagram));
}

#[test]
fn mermaid_trim_agrees_with_std_white_space_on_every_char() {
    for u in 0u32..=0x10ffff {
        if let Some(c) = char::from_u32(u) {
            let source = format!("{}pie", c);
            let accepted = validate_mermaid_source(&source) == Ok(());
            assert_eq!(accepted, c.is_whitespace(), "char U+{:04X}", u);
        }
    }
}
