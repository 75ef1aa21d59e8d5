//! The forms in which a collection is written to a file.

use vstd::prelude::*;
use crate::labels::{Label, LabelModel};
use crate::text::join3;

verus! {

/// A form in which a collection is written.
#[derive(Clone, Copy, PartialEq, Eq, Structural, Debug)]
pub enum CollectionExport {
    PostmanJson,
    OpenApiJson,
    OpenApiYaml,
    SwaggerJson,
    SwaggerYaml,
}

/// How a document is encoded.
#[derive(Clone, Copy, PartialEq, Eq, Structural, Debug)]
pub enum DocumentEncoding {
    Json,
    Yaml,
}

/// A kind of document.
#[derive(Clone, Copy, PartialEq, Eq, Structural, Debug)]
pub enum DocumentKind {
    Postman,
    OpenApi,
    Swagger,
}

/// All forms, in the order of the menu.
pub open spec fn all_exports() -> Seq<CollectionExport> {
    seq![
        CollectionExport::PostmanJson,
        CollectionExport::OpenApiJson,
        CollectionExport::OpenApiYaml,
        CollectionExport::SwaggerJson,
        CollectionExport::SwaggerYaml,
    ]
}

/// All forms, in the order of the menu.
pub fn collection_exports() -> (r: Vec<CollectionExport>)
    ensures
        r@ == all_exports(),
{
    vec![
        CollectionExport::PostmanJson,
        CollectionExport::OpenApiJson,
        CollectionExport::OpenApiYaml,
        CollectionExport::SwaggerJson,
        CollectionExport::SwaggerYaml,
    ]
}

impl CollectionExport {
    /// The name of the file.
    pub open spec fn file_name_text(self) -> Seq<char> {
        match self {
            CollectionExport::PostmanJson => "navop-postman-collection.json"@,
            CollectionExport::OpenApiJson => "navop-openapi.json"@,
            CollectionExport::OpenApiYaml => "navop-openapi.yaml"@,
            CollectionExport::SwaggerJson => "navop-swagger.json"@,
            CollectionExport::SwaggerYaml => "navop-swagger.yaml"@,
        }
    }

    /// The name of the file.
    pub fn file_name(self) -> (r: &'static str)
        ensures
            r@ == self.file_name_text(),
    {
        match self {
            CollectionExport::PostmanJson => "navop-postman-collection.json",
            CollectionExport::OpenApiJson => "navop-openapi.json",
            CollectionExport::OpenApiYaml => "navop-openapi.yaml",
            CollectionExport::SwaggerJson => "navop-swagger.json",
            CollectionExport::SwaggerYaml => "navop-swagger.yaml",
        }
    }

    /// What the user is asked for the place of the file.
    pub open spec fn prompt_label(self) -> LabelModel {
        match self {
            CollectionExport::PostmanJson => LabelModel::Message("ApiTest.export_postman"@),
            CollectionExport::OpenApiJson
            | CollectionExport::OpenApiYaml => LabelModel::Message("ApiTest.export_openapi"@),
            CollectionExport::SwaggerJson
            | CollectionExport::SwaggerYaml => LabelModel::Message("ApiTest.export_swagger"@),
        }
    }

    /// What the user is asked for the place of the file.
    pub fn prompt(self) -> (r: Label)
        ensures
            r.deep_view() == self.prompt_label(),
    {
        match self {
            CollectionExport::PostmanJson => Label::Message("ApiTest.export_postman"),
            CollectionExport::OpenApiJson
            | CollectionExport::OpenApiYaml => Label::Message("ApiTest.export_openapi"),
            CollectionExport::SwaggerJson
            | CollectionExport::SwaggerYaml => Label::Message("ApiTest.export_swagger"),
        }
    }

    /// How the document is encoded.
    pub open spec fn encoding_of(self) -> DocumentEncoding {
        match self {
            CollectionExport::OpenApiYaml | CollectionExport::SwaggerYaml => DocumentEncoding::Yaml,
            _ => DocumentEncoding::Json,
        }
    }

    /// The kind of the document.
    pub open spec fn kind_of(self) -> DocumentKind {
        match self {
            CollectionExport::PostmanJson => DocumentKind::Postman,
            CollectionExport::OpenApiJson | CollectionExport::OpenApiYaml => DocumentKind::OpenApi,
            CollectionExport::SwaggerJson | CollectionExport::SwaggerYaml => DocumentKind::Swagger,
        }
    }

    /// How the document is encoded.
    pub fn encoding(self) -> (r: DocumentEncoding)
        ensures
            r == self.encoding_of(),
    {
        match self {
            CollectionExport::OpenApiYaml | CollectionExport::SwaggerYaml => DocumentEncoding::Yaml,
            CollectionExport::PostmanJson
            | CollectionExport::OpenApiJson
            | CollectionExport::SwaggerJson => DocumentEncoding::Json,
        }
    }

    /// The entry of the menu: the prompt in the user's language and the encoding.
    pub fn menu_label(self, prompt: &str) -> (r: String)
        ensures
            r@ == prompt@ + " · "@ + (match self.encoding_of() {
                DocumentEncoding::Json => "JSON"@,
                DocumentEncoding::Yaml => "YAML"@,
            }),
    {
        let encoding = match self.encoding() {
            DocumentEncoding::Json => "JSON",
            DocumentEncoding::Yaml => "YAML",
        };
        join3(prompt, " · ", encoding)
    }

    /// The document that the store is written as: its kind, its title and its encoding.
    pub fn serialize(self) -> (r: (DocumentKind, &'static str, DocumentEncoding))
        ensures
            r.0 == self.kind_of(),
            r.1@ == (if self.kind_of() == DocumentKind::Postman {
                "Navop Collection"@
            } else {
                "Navop API"@
            }),
            r.2 == self.encoding_of(),
    {
        match self {
            CollectionExport::PostmanJson => (
                DocumentKind::Postman,
                "Navop Collection",
                self.encoding(),
            ),
            CollectionExport::OpenApiJson
            | CollectionExport::OpenApiYaml => (
                DocumentKind::OpenApi,
                "Navop API",
                self.encoding(),
            ),
            CollectionExport::SwaggerJson
            | CollectionExport::SwaggerYaml => (
                DocumentKind::Swagger,
                "Navop API",
                self.encoding(),
            ),
        }
    }
}

/// A form is given by the kind of its document and its encoding.
pub proof fn law_exports_are_distinct(a: CollectionExport, b: CollectionExport)
    requires
        a.kind_of() == b.kind_of(),
        a.encoding_of() == b.encoding_of(),
    ensures
        a == b,
{
}

/// No two forms are written to files of the same name.
pub proof fn law_export_files_are_distinct(a: CollectionExport, b: CollectionExport)
    requires
        a.file_name_text() == b.file_name_text(),
    ensures
        a == b,
{
    reveal_strlit("navop-postman-collection.json");
    reveal_strlit("navop-openapi.json");
    reveal_strlit("navop-openapi.yaml");
    reveal_strlit("navop-swagger.json");
    reveal_strlit("navop-swagger.yaml");
    let x = a.file_name_text();
    let y = b.file_name_text();
    assert(x.len() == y.len());
    assert(x[6] == y[6]);
    assert(x[14] == y[14]);
}

} // verus!
