//! Uniform resources: the closed set of typed resources downstream
//! consumers see, and the dispatcher that selects a variant from a
//! content resource's nature by case-sensitive exact match.

use vstd::prelude::*;

use crate::capexec::CapExecView;
use crate::capexec::CapturableExecutable;
use crate::content::ContentResource;
use crate::content::ContentResourceView;
use crate::textutil::str_eq;

verus! {

/// A resource whose effective content is the output of running it.
pub struct CapturableExecResource<Resource> {
    pub resource: Resource,
    pub executable: CapturableExecutable,
}

pub struct PlainTextResource<Resource> {
    pub resource: Resource,
}

pub struct HtmlResource<Resource> {
    pub resource: Resource,
}

pub struct ImageResource<Resource> {
    pub resource: Resource,
}

#[derive(Clone, Copy, Debug, PartialEq, Eq, Structural)]
pub enum JsonFormat {
    Json,
    JsonWithComments,
    Unknown,
}

pub struct JsonResource<Resource> {
    pub resource: Resource,
    pub format: JsonFormat,
}

#[derive(Clone, Copy, Debug, PartialEq, Eq, Structural)]
pub enum JsonableTextSchema {
    TestAnythingProtocol,
    Toml,
    Yaml,
    Unknown,
}

pub struct JsonableTextResource<Resource> {
    pub resource: Resource,
    pub schema: JsonableTextSchema,
}

pub struct MarkdownResource<Resource> {
    pub resource: Resource,
}

#[derive(Clone, Copy, Debug, PartialEq, Eq, Structural)]
pub enum SourceCodeInterpreter {
    TypeScript,
    JavaScript,
    Rust,
    Unknown,
}

pub struct SourceCodeResource<Resource> {
    pub resource: Resource,
    pub interpreter: SourceCodeInterpreter,
}

#[derive(Clone, Copy, Debug, PartialEq, Eq, Structural)]
pub enum XmlSchema {
    Svg,
    Unknown,
}

pub struct XmlResource<Resource> {
    pub resource: Resource,
    pub schema: XmlSchema,
}

/// The closed set of typed resources the pipeline emits.
pub enum UniformResource<Resource> {
    CapturableExec(CapturableExecResource<Resource>),
    Html(HtmlResource<Resource>),
    Image(ImageResource<Resource>),
    Json(JsonResource<Resource>),
    JsonableText(JsonableTextResource<Resource>),
    Markdown(MarkdownResource<Resource>),
    PlainText(PlainTextResource<Resource>),
    SourceCode(SourceCodeResource<Resource>),
    Xml(XmlResource<Resource>),
    Unknown(Resource, Option<String>),
}

/// The mathematical content of a uniform resource over content
/// resources.
pub enum UniformView {
    CapturableExec(ContentResourceView, CapExecView),
    Html(ContentResourceView),
    Image(ContentResourceView),
    Json(ContentResourceView, JsonFormat),
    JsonableText(ContentResourceView, JsonableTextSchema),
    Markdown(ContentResourceView),
    PlainText(ContentResourceView),
    SourceCode(ContentResourceView, SourceCodeInterpreter),
    Xml(ContentResourceView, XmlSchema),
    Unknown(ContentResourceView, Option<Seq<char>>),
}

impl View for UniformResource<ContentResource> {
    type V = UniformView;

    open spec fn view(&self) -> UniformView {
        match self {
            UniformResource::CapturableExec(cer) => UniformView::CapturableExec(
                cer.resource@,
                cer.executable@,
            ),
            UniformResource::Html(html) => UniformView::Html(html.resource@),
            UniformResource::Image(img) => UniformView::Image(img.resource@),
            UniformResource::Json(json) => UniformView::Json(json.resource@, json.format),
            UniformResource::JsonableText(jt) => UniformView::JsonableText(jt.resource@, jt.schema),
            UniformResource::Markdown(md) => UniformView::Markdown(md.resource@),
            UniformResource::PlainText(txt) => UniformView::PlainText(txt.resource@),
            UniformResource::SourceCode(sc) => UniformView::SourceCode(sc.resource@, sc.interpreter),
            UniformResource::Xml(xml) => UniformView::Xml(xml.resource@, xml.schema),
            UniformResource::Unknown(cr, alternate) => UniformView::Unknown(
                cr@,
                alternate.deep_view(),
            ),
        }
    }
}

impl UniformView {
    /// The URI of the underlying content resource.
    pub open spec fn spec_uri(self) -> Seq<char> {
        match self {
            UniformView::CapturableExec(cr, _) => cr.uri,
            UniformView::Html(cr) => cr.uri,
            UniformView::Image(cr) => cr.uri,
            UniformView::Json(cr, _) => cr.uri,
            UniformView::JsonableText(cr, _) => cr.uri,
            UniformView::Markdown(cr) => cr.uri,
            UniformView::PlainText(cr) => cr.uri,
            UniformView::SourceCode(cr, _) => cr.uri,
            UniformView::Xml(cr, _) => cr.uri,
            UniformView::Unknown(cr, _) => cr.uri,
        }
    }

    /// The nature of the underlying content resource; the unknown
    /// variant reports none.
    pub open spec fn spec_nature(self) -> Option<Seq<char>> {
        match self {
            UniformView::CapturableExec(cr, _) => cr.nature,
            UniformView::Html(cr) => cr.nature,
            UniformView::Image(cr) => cr.nature,
            UniformView::Json(cr, _) => cr.nature,
            UniformView::JsonableText(cr, _) => cr.nature,
            UniformView::Markdown(cr) => cr.nature,
            UniformView::PlainText(cr) => cr.nature,
            UniformView::SourceCode(cr, _) => cr.nature,
            UniformView::Xml(cr, _) => cr.nature,
            UniformView::Unknown(_, _) => None,
        }
    }
}

/// Access to a resource's URI and nature.
pub trait UriNatureSupplier<Resource> {
    fn uri(&self) -> &String;

    fn nature(&self) -> Option<&String>;
}

impl UriNatureSupplier<ContentResource> for UniformResource<ContentResource> {
    /// The URI of the underlying content resource.
    fn uri(&self) -> (r: &String)
        ensures
            r@ == self@.spec_uri(),
    {
        match self {
            UniformResource::CapturableExec(cer) => &cer.resource.uri,
            UniformResource::Html(html) => &html.resource.uri,
            UniformResource::Image(img) => &img.resource.uri,
            UniformResource::Json(json) => &json.resource.uri,
            UniformResource::JsonableText(jt) => &jt.resource.uri,
            UniformResource::Markdown(md) => &md.resource.uri,
            UniformResource::PlainText(txt) => &txt.resource.uri,
            UniformResource::SourceCode(sc) => &sc.resource.uri,
            UniformResource::Xml(xml) => &xml.resource.uri,
            UniformResource::Unknown(cr, _) => &cr.uri,
        }
    }

    /// The nature of the underlying content resource; the unknown
    /// variant reports none.
    fn nature(&self) -> (r: Option<&String>)
        ensures
            r.deep_view() == self@.spec_nature(),
    {
        match self {
            UniformResource::CapturableExec(cer) => cer.resource.nature.as_ref(),
            UniformResource::Html(html) => html.resource.nature.as_ref(),
            UniformResource::Image(img) => img.resource.nature.as_ref(),
            UniformResource::Json(json) => json.resource.nature.as_ref(),
            UniformResource::JsonableText(jt) => jt.resource.nature.as_ref(),
            UniformResource::Markdown(md) => md.resource.nature.as_ref(),
            UniformResource::PlainText(txt) => txt.resource.nature.as_ref(),
            UniformResource::SourceCode(sc) => sc.resource.nature.as_ref(),
            UniformResource::Xml(xml) => xml.resource.nature.as_ref(),
            UniformResource::Unknown(_, _) => None,
        }
    }
}

/// The error of a dispatch on a resource without a nature: the
/// resource's URI.
#[derive(Debug)]
pub struct DispatchError {
    pub uri: String,
}

/// A supplier of uniform resources from materialized resources.
pub trait UniformResourceSupplier<Resource> {
    fn uniform_resource(&self, rs: Resource) -> Result<Box<UniformResource<Resource>>, DispatchError>;
}

/// The dispatch table: the typed variant selected by a content
/// resource's nature, by case-sensitive exact match; an unrecognized
/// nature yields the unknown variant, and a missing nature fails with
/// the resource's URI.
pub open spec fn spec_uniform_resource(cr: ContentResourceView) -> Result<UniformView, Seq<char>> {
    match cr.nature {
        None => Err(cr.uri),
        Some(n) => Ok(
            if n == "html"@ || n == "text/html"@ {
                UniformView::Html(cr)
            } else if n == "json"@ || n == "application/json"@ {
                UniformView::Json(cr, JsonFormat::Json)
            } else if n == "jsonc"@ {
                UniformView::Json(cr, JsonFormat::JsonWithComments)
            } else if n == "tap"@ {
                UniformView::JsonableText(cr, JsonableTextSchema::TestAnythingProtocol)
            } else if n == "toml"@ || n == "application/toml"@ {
                UniformView::JsonableText(cr, JsonableTextSchema::Toml)
            } else if n == "yml"@ || n == "application/yaml"@ {
                UniformView::JsonableText(cr, JsonableTextSchema::Yaml)
            } else if n == "js"@ {
                UniformView::SourceCode(cr, SourceCodeInterpreter::JavaScript)
            } else if n == "rs"@ {
                UniformView::SourceCode(cr, SourceCodeInterpreter::Rust)
            } else if n == "ts"@ {
                UniformView::SourceCode(cr, SourceCodeInterpreter::TypeScript)
            } else if n == "md"@ || n == "mdx"@ || n == "text/markdown"@ {
                UniformView::Markdown(cr)
            } else if n == "txt"@ || n == "text/plain"@ {
                UniformView::PlainText(cr)
            } else if n == "png"@ || n == "gif"@ || n == "tiff"@ || n == "jpg"@ || n == "jpeg"@ {
                UniformView::Image(cr)
            } else if n == "svg"@ || n == "image/svg+xml"@ {
                UniformView::Xml(cr, XmlSchema::Svg)
            } else if n == "xml"@ || n == "text/xml"@ || n == "application/xml"@ {
                UniformView::Xml(cr, XmlSchema::Unknown)
            } else {
                UniformView::Unknown(cr, None)
            },
        ),
    }
}

/// Dispatches a content resource to its typed uniform variant, exactly
/// as `spec_uniform_resource` says: a resource without a nature is
/// refused with a diagnostic naming its URI.
pub fn uniform_resource_of(cr: ContentResource) -> (r: Result<
    Box<UniformResource<ContentResource>>,
    DispatchError,
>)
    ensures
        r matches Ok(u) ==> spec_uniform_resource(cr@) == Ok::<UniformView, Seq<char>>(u@),
        r matches Err(e) ==> cr@.nature is None && e.uri@ == cr@.uri,
{
    let candidate: String = match &cr.nature {
        Some(n) => n.clone(),
        None => {
            let uri = cr.uri.clone();
            return Err(DispatchError { uri });
        },
    };
    let n = candidate.as_str();
    let u: UniformResource<ContentResource> = if str_eq(n, "html") || str_eq(n, "text/html") {
        UniformResource::Html(HtmlResource { resource: cr })
    } else if str_eq(n, "json") || str_eq(n, "application/json") {
        UniformResource::Json(JsonResource { resource: cr, format: JsonFormat::Json })
    } else if str_eq(n, "jsonc") {
        UniformResource::Json(JsonResource { resource: cr, format: JsonFormat::JsonWithComments })
    } else if str_eq(n, "tap") {
        UniformResource::JsonableText(
            JsonableTextResource { resource: cr, schema: JsonableTextSchema::TestAnythingProtocol },
        )
    } else if str_eq(n, "toml") || str_eq(n, "application/toml") {
        UniformResource::JsonableText(
            JsonableTextResource { resource: cr, schema: JsonableTextSchema::Toml },
        )
    } else if str_eq(n, "yml") || str_eq(n, "application/yaml") {
        UniformResource::JsonableText(
            JsonableTextResource { resource: cr, schema: JsonableTextSchema::Yaml },
        )
    } else if str_eq(n, "js") {
        UniformResource::SourceCode(
            SourceCodeResource { resource: cr, interpreter: SourceCodeInterpreter::JavaScript },
        )
    } else if str_eq(n, "rs") {
        UniformResource::SourceCode(
            SourceCodeResource { resource: cr, interpreter: SourceCodeInterpreter::Rust },
        )
    } else if str_eq(n, "ts") {
        UniformResource::SourceCode(
            SourceCodeResource { resource: cr, interpreter: SourceCodeInterpreter::TypeScript },
        )
    } else if str_eq(n, "md") || str_eq(n, "mdx") || str_eq(n, "text/markdown") {
        UniformResource::Markdown(MarkdownResource { resource: cr })
    } else if str_eq(n, "txt") || str_eq(n, "text/plain") {
        UniformResource::PlainText(PlainTextResource { resource: cr })
    } else if str_eq(n, "png") || str_eq(n, "gif") || str_eq(n, "tiff") || str_eq(n, "jpg")
        || str_eq(n, "jpeg") {
        UniformResource::Image(ImageResource { resource: cr })
    } else if str_eq(n, "svg") || str_eq(n, "image/svg+xml") {
        UniformResource::Xml(XmlResource { resource: cr, schema: XmlSchema::Svg })
    } else if str_eq(n, "xml") || str_eq(n, "text/xml") || str_eq(n, "application/xml") {
        UniformResource::Xml(XmlResource { resource: cr, schema: XmlSchema::Unknown })
    } else {
        UniformResource::Unknown(cr, None)
    };
    Ok(Box::new(u))
}

} // verus!
