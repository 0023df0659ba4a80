//! Render request and template metadata.
//!
//! Rendering is represented as validated metadata plus borrowed output. Real
//! filesystem and publication work belongs in host tooling layered above this
//! crate.

use vstd::prelude::*;
use vstd::string::StringSliceAdditionalSpecFns;
use crate::{chain, title_check, validate_title, DocsError, DocsResult, DocumentControl};

verus! {

/// Required sections from the shared documentation template.
pub const TEMPLATE_SECTIONS: [&'static str; 8] = [
    "Document Control",
    "Purpose",
    "Scope",
    "Requirements",
    "Design / Procedure",
    "Interfaces",
    "Acceptance Criteria",
    "Risks and Open Questions",
];

/// Render output format.
#[derive(Clone, Copy, Debug, PartialEq, Eq, Structural)]
pub enum RenderFormat {
    /// Markdown output.
    Markdown,
    /// HTML fragment output.
    HtmlFragment,
    /// Plain text output.
    PlainText,
    /// JSON summary output.
    JsonSummary,
}

impl RenderFormat {
    /// The stable wire number of each variant, counting from one.
    pub open spec fn number_of(self) -> u8 {
        match self {
            RenderFormat::Markdown => 1,
            RenderFormat::HtmlFragment => 2,
            RenderFormat::PlainText => 3,
            RenderFormat::JsonSummary => 4,
        }
    }

    /// Returns the stable wire number of this variant.
    pub fn number(self) -> (r: u8)
        ensures
            r == self.number_of(),
    {
        match self {
            RenderFormat::Markdown => 1,
            RenderFormat::HtmlFragment => 2,
            RenderFormat::PlainText => 3,
            RenderFormat::JsonSummary => 4,
        }
    }

    /// The stable label of each format, as characters.
    pub open spec fn label_text(self) -> Seq<char> {
        match self {
            RenderFormat::Markdown => "markdown"@,
            RenderFormat::HtmlFragment => "html_fragment"@,
            RenderFormat::PlainText => "plain_text"@,
            RenderFormat::JsonSummary => "json_summary"@,
        }
    }

    /// Stable format label.
    pub fn label(self) -> (r: &'static str)
        ensures
            r@ == self.label_text(),
    {
        match self {
            RenderFormat::Markdown => "markdown",
            RenderFormat::HtmlFragment => "html_fragment",
            RenderFormat::PlainText => "plain_text",
            RenderFormat::JsonSummary => "json_summary",
        }
    }
}

/// Render options supplied by host tooling.
#[derive(Clone, Copy, Debug, PartialEq, Eq, Structural)]
pub struct RenderOptions {
    /// Output format.
    pub format: RenderFormat,
    /// Include generated table of contents when supported.
    pub include_toc: bool,
    /// Redact sensitive sections before export.
    pub redact_sensitive: bool,
    /// Maximum output bytes. Zero means unspecified.
    pub max_output_bytes: usize,
}

impl RenderOptions {
    /// The conservative defaults for a format: no table of contents,
    /// redaction on, no output limit.
    pub open spec fn defaults(format: RenderFormat) -> RenderOptions {
        RenderOptions { format, include_toc: false, redact_sensitive: true, max_output_bytes: 0 }
    }

    /// A table of contents cannot be combined with JSON summary output.
    pub open spec fn validation(self) -> DocsResult<()> {
        if self.include_toc && self.format == RenderFormat::JsonSummary {
            Err(DocsError::UnsupportedFormat)
        } else {
            Ok(())
        }
    }

    /// Conservative markdown defaults.
    pub fn markdown() -> (r: Self)
        ensures
            r == Self::defaults(RenderFormat::Markdown),
    {
        RenderOptions {
            format: RenderFormat::Markdown,
            include_toc: false,
            redact_sensitive: true,
            max_output_bytes: 0,
        }
    }

    /// Creates options for a format.
    pub fn new(format: RenderFormat) -> (r: Self)
        ensures
            r == Self::defaults(format),
    {
        RenderOptions { format, ..Self::markdown() }
    }

    /// Sets the maximum output byte count.
    pub fn with_max_output_bytes(self, max_output_bytes: usize) -> (r: Self)
        ensures
            r == (RenderOptions { max_output_bytes, ..self }),
    {
        let mut options = self;
        options.max_output_bytes = max_output_bytes;
        options
    }

    /// Validates option combinations.
    pub fn validate(self) -> (r: DocsResult<()>)
        ensures
            r == self.validation(),
    {
        let json = match self.format {
            RenderFormat::JsonSummary => true,
            _ => false,
        };
        if self.include_toc && json {
            return Err(DocsError::UnsupportedFormat);
        }
        Ok(())
    }
}

/// Options built by `RenderOptions::new` are valid for every format.
pub proof fn law_default_options_valid(format: RenderFormat)
    ensures
        RenderOptions::defaults(format).validation() is Ok,
{
}

/// Borrowed render request.
#[derive(Clone, Copy, Debug, PartialEq, Eq)]
pub struct RenderRequest<'a> {
    /// Document control metadata.
    pub control: DocumentControl<'a>,
    /// Markdown source body.
    pub body: &'a str,
    /// Render options.
    pub options: RenderOptions,
}

impl<'a> RenderRequest<'a> {
    /// Outcome of request validation: control block, non-empty body, options,
    /// then the output limit (when one is set).
    pub open spec fn validation(self) -> DocsResult<()> {
        chain(
            self.control.validation(),
            if self.body.spec_bytes().len() == 0 {
                Err(DocsError::MissingField)
            } else {
                chain(
                    self.options.validation(),
                    if self.options.max_output_bytes != 0 && self.body.spec_bytes().len()
                        > self.options.max_output_bytes {
                        Err(DocsError::FieldTooLong)
                    } else {
                        Ok(())
                    },
                )
            },
        )
    }

    /// The rendered record of a request.
    pub open spec fn rendered(self) -> RenderedDocument<'a> {
        RenderedDocument {
            title: self.control.title,
            format: self.options.format,
            body: self.body,
            bytes: self.body.spec_bytes().len() as usize,
            redacted: self.options.redact_sensitive,
        }
    }

    /// Creates a render request.
    pub fn new(control: DocumentControl<'a>, body: &'a str, options: RenderOptions) -> (r: Self)
        ensures
            r == (RenderRequest { control, body, options }),
    {
        RenderRequest { control, body, options }
    }

    /// Validates control metadata, body presence, and options.
    pub fn validate(self) -> (r: DocsResult<()>)
        ensures
            r == self.validation(),
    {
        if let Err(e) = self.control.validate() {
            return Err(e);
        }
        let body = self.body.as_bytes();
        if body.len() == 0 {
            return Err(DocsError::MissingField);
        }
        if let Err(e) = self.options.validate() {
            return Err(e);
        }
        if self.options.max_output_bytes != 0 && body.len() > self.options.max_output_bytes {
            return Err(DocsError::FieldTooLong);
        }
        Ok(())
    }

    /// Produces a borrowed rendered-document record.
    pub fn render(self) -> (r: DocsResult<RenderedDocument<'a>>)
        ensures
            match self.validation() {
                Err(e) => r matches Err(e2) && e2 == e,
                Ok(_) => r matches Ok(doc) && doc == self.rendered(),
            },
            r matches Ok(doc) ==> doc.validation() is Ok,
            r matches Ok(doc) ==> doc.title == self.control.title && doc.format
                == self.options.format && doc.body == self.body && doc.bytes
                == self.body.spec_bytes().len() && doc.redacted == self.options.redact_sensitive,
            r is Ok <==> self.validation() is Ok,
    {
        if let Err(e) = self.validate() {
            return Err(e);
        }
        let body = self.body.as_bytes();
        Ok(
            RenderedDocument {
                title: self.control.title,
                format: self.options.format,
                body: self.body,
                bytes: body.len(),
                redacted: self.options.redact_sensitive,
            },
        )
    }
}

/// Rendered document metadata with borrowed output.
#[derive(Clone, Copy, Debug, PartialEq, Eq)]
pub struct RenderedDocument<'a> {
    /// Rendered title.
    pub title: &'a str,
    /// Output format.
    pub format: RenderFormat,
    /// Borrowed rendered body.
    pub body: &'a str,
    /// Output byte length.
    pub bytes: usize,
    /// Whether sensitive sections were redacted.
    pub redacted: bool,
}

impl<'a> RenderedDocument<'a> {
    /// Outcome of rendered-output validation.
    pub open spec fn validation(self) -> DocsResult<()> {
        chain(
            title_check(self.title.spec_bytes()),
            if self.body.spec_bytes().len() == 0 || self.bytes != self.body.spec_bytes().len() {
                Err(DocsError::MissingField)
            } else {
                Ok(())
            },
        )
    }

    /// Validates rendered output metadata.
    pub fn validate(self) -> (r: DocsResult<()>)
        ensures
            r == self.validation(),
    {
        if let Err(e) = validate_title(self.title) {
            return Err(e);
        }
        let body = self.body.as_bytes();
        if body.len() == 0 || self.bytes != body.len() {
            return Err(DocsError::MissingField);
        }
        Ok(())
    }
}

/// Template descriptor for spec, ADR, RFC, API, and runbook documents.
#[derive(Clone, Copy, Debug, PartialEq, Eq)]
pub struct TemplateDescriptor<'a> {
    /// Template name.
    pub name: &'a str,
    /// Template sections.
    pub sections: &'static [&'static str],
}

impl<'a> TemplateDescriptor<'a> {
    /// Outcome of template validation: a valid name and at least one section.
    pub open spec fn validation(self) -> DocsResult<()> {
        chain(
            title_check(self.name.spec_bytes()),
            if self.sections@.len() == 0 {
                Err(DocsError::MissingSection)
            } else {
                Ok(())
            },
        )
    }

    /// Creates a template descriptor.
    pub fn new(name: &'a str) -> (r: Self)
        ensures
            r.name == name,
            r.sections@ == TEMPLATE_SECTIONS@,
    {
        TemplateDescriptor { name, sections: &TEMPLATE_SECTIONS }
    }

    /// Validates template metadata.
    pub fn validate(self) -> (r: DocsResult<()>)
        ensures
            r == self.validation(),
    {
        if let Err(e) = validate_title(self.name) {
            return Err(e);
        }
        if self.sections.len() == 0 {
            return Err(DocsError::MissingSection);
        }
        Ok(())
    }
}

/// A template built on the shared sections is valid exactly when its name is
/// a valid title.
pub proof fn law_shared_template_validation<'a>(template: TemplateDescriptor<'a>)
    requires
        template.sections@ == TEMPLATE_SECTIONS@,
    ensures
        template.validation() == title_check(template.name.spec_bytes()),
{
}

/// Options are valid unless a table of contents is asked of JSON output.
pub proof fn law_options_rule(options: RenderOptions)
    ensures
        options.validation() is Ok <==> !(options.include_toc && options.format
            == RenderFormat::JsonSummary),
        options.validation() is Err ==> options.validation() == Err::<(), DocsError>(
            DocsError::UnsupportedFormat,
        ),
        RenderOptions::defaults(options.format).include_toc == false,
        RenderOptions::defaults(options.format).redact_sensitive == true,
        RenderOptions::defaults(options.format).max_output_bytes == 0,
        RenderOptions::defaults(options.format).format == options.format,
{
}

/// A request is valid exactly when its control block is valid, its body is
/// non-empty, its options are valid, and the body fits the output limit
/// (zero meaning none); the checks report in that order.
pub proof fn law_request_rules<'a>(request: RenderRequest<'a>)
    ensures
        request.validation() is Ok <==> (request.control.validation() is Ok
            && request.body.spec_bytes().len() > 0 && request.options.validation() is Ok && (
        request.options.max_output_bytes == 0 || request.body.spec_bytes().len()
            <= request.options.max_output_bytes)),
        request.control.validation() is Err ==> request.validation()
            == request.control.validation(),
        request.control.validation() is Ok && request.body.spec_bytes().len() == 0
            ==> request.validation() == Err::<(), DocsError>(DocsError::MissingField),
        request.control.validation() is Ok && request.body.spec_bytes().len() > 0
            && request.options.validation() is Err ==> request.validation()
            == request.options.validation(),
        request.validation() is Err && request.control.validation() is Ok
            && request.body.spec_bytes().len() > 0 && request.options.validation() is Ok
            ==> request.validation() == Err::<(), DocsError>(DocsError::FieldTooLong),
{
}

/// The rendered record takes its title from the control block, its format,
/// redaction and body from the request, and counts the body's bytes.
pub proof fn law_rendered_record<'a>(request: RenderRequest<'a>)
    ensures
        request.rendered().title == request.control.title,
        request.rendered().format == request.options.format,
        request.rendered().body == request.body,
        request.rendered().bytes == request.body.spec_bytes().len() as usize,
        request.rendered().redacted == request.options.redact_sensitive,
{
}

/// A rendered record is valid exactly when its title is valid, its body is
/// non-empty, and its byte count is the body's length.
pub proof fn law_rendered_document_rules<'a>(doc: RenderedDocument<'a>)
    ensures
        doc.validation() is Ok <==> (title_check(doc.title.spec_bytes()) is Ok
            && doc.body.spec_bytes().len() > 0 && doc.bytes == doc.body.spec_bytes().len()),
        title_check(doc.title.spec_bytes()) is Ok && doc.validation() is Err ==> doc.validation()
            == Err::<(), DocsError>(DocsError::MissingField),
{
}

/// A template is valid exactly when its name is a valid title and it has at
/// least one section.
pub proof fn law_template_rules<'a>(template: TemplateDescriptor<'a>)
    ensures
        template.validation() is Ok <==> (title_check(template.name.spec_bytes()) is Ok
            && template.sections@.len() > 0),
        title_check(template.name.spec_bytes()) is Ok && template.sections@.len() == 0
            ==> template.validation() == Err::<(), DocsError>(DocsError::MissingSection),
{
}

/// Module boundary descriptor.
#[derive(Clone, Debug, PartialEq, Eq)]
pub struct RenderDescriptor<'a> {
    /// Human-readable descriptor name.
    pub name: &'a str,
    /// Descriptor version.
    pub version: u32,
}

impl<'a> RenderDescriptor<'a> {
    /// Creates a render descriptor.
    pub fn new(name: &'a str, version: u32) -> (r: Self)
        ensures
            r == (RenderDescriptor { name, version }),
    {
        RenderDescriptor { name, version }
    }
}

} // verus!
