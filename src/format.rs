use vstd::prelude::*;
use vstd::string::*;

use crate::text::chars_equal;

verus! {

/// A textual format of the configuration document.
#[derive(Clone, Copy, Debug, PartialEq, Eq, Structural)]
pub enum Format {
    Toml,
    Yaml,
    Json,
}

/// The format that a file extension (or a `--print-config` value) selects.
pub open spec fn format_of_extension(ext: Seq<char>) -> Option<Format> {
    if ext == "toml"@ {
        Some(Format::Toml)
    } else if ext == "yaml"@ || ext == "yml"@ {
        Some(Format::Yaml)
    } else if ext == "json"@ {
        Some(Format::Json)
    } else {
        None
    }
}

impl Format {
    /// The format selected by the extension `ext`; `None` when no format
    /// has that extension.
    pub fn from_extension(ext: &str) -> (r: Option<Format>)
        ensures
            r == format_of_extension(ext@),
    {
        if chars_equal(ext, "toml") {
            Some(Format::Toml)
        } else if chars_equal(ext, "yaml") || chars_equal(ext, "yml") {
            Some(Format::Yaml)
        } else if chars_equal(ext, "json") {
            Some(Format::Json)
        } else {
            None
        }
    }
}

/// What a process does first, as its one-shot command-line directives ask.
#[derive(Clone, Copy, Debug, PartialEq, Eq, Structural)]
pub enum Startup {
    /// Print the schema of the configuration document and exit.
    PrintSchema,
    /// Print the merged configuration in this format and exit.
    PrintConfig(Format),
    /// `--print-config` named no known format: report it and exit.
    InvalidPrintFormat,
    /// Go on with normal execution.
    Run,
}

pub open spec fn spec_startup(print_schema: bool, print_config: Option<Seq<char>>) -> Startup {
    if print_schema {
        Startup::PrintSchema
    } else {
        match print_config {
            None => Startup::Run,
            Some(name) => match format_of_extension(name) {
                Some(format) => Startup::PrintConfig(format),
                None => Startup::InvalidPrintFormat,
            },
        }
    }
}

/// The exit status of a process that stops at startup, `None` for one that
/// goes on.
pub open spec fn spec_exit_code(s: Startup) -> Option<u8> {
    match s {
        Startup::PrintSchema => Some(0),
        Startup::PrintConfig(_) => Some(0),
        Startup::InvalidPrintFormat => Some(1),
        Startup::Run => None,
    }
}

/// Decides the startup directive. Printing the schema wins over everything
/// else, whatever the other directives or the configuration file hold.
pub fn startup(print_schema: bool, print_config: &Option<String>) -> (r: Startup)
    ensures
        r == spec_startup(
            print_schema,
            match print_config {
                Some(s) => Some(s@),
                None => None,
            },
        ),
        print_schema ==> r == Startup::PrintSchema,
{
    if print_schema {
        return Startup::PrintSchema;
    }
    match print_config {
        None => Startup::Run,
        Some(name) => match Format::from_extension(name.as_str()) {
            Some(format) => Startup::PrintConfig(format),
            None => Startup::InvalidPrintFormat,
        },
    }
}

impl Startup {
    /// The status to exit with; a printed configuration is taken to have been
    /// serialized.
    pub fn exit_code(&self) -> (r: Option<u8>)
        ensures
            r == spec_exit_code(*self),
    {
        match self {
            Startup::PrintSchema => Some(0),
            Startup::PrintConfig(_) => Some(0),
            Startup::InvalidPrintFormat => Some(1),
            Startup::Run => None,
        }
    }
}

/// The address of the schema document published under `root`.
pub open spec fn schema_url(root: Seq<char>) -> Seq<char> {
    root + "/schema.json"@
}

/// How a printed configuration refers to its schema.
#[derive(Clone, Debug)]
pub enum SchemaAnnotation {
    /// A comment line put before the document.
    Comment(String),
    /// A field added at the top level of the document.
    Field { key: String, value: String },
}

/// The annotation that points editors of a document in `format` to the
/// schema published under `root`.
pub fn schema_annotation(format: Format, root: &str) -> (r: SchemaAnnotation)
    ensures
        format == Format::Yaml ==> (r matches SchemaAnnotation::Comment(c) && c@
            == "# yaml-language-server: $schema="@ + schema_url(root@)),
        format == Format::Toml ==> (r matches SchemaAnnotation::Comment(c) && c@ == "#:schema "@
            + schema_url(root@)),
        format == Format::Json ==> (r matches SchemaAnnotation::Field { key, value } && key@
            == "$schema"@ && value@ == schema_url(root@)),
{
    let mut url = String::from_str(root);
    url.append("/schema.json");
    match format {
        Format::Yaml => {
            let mut c = String::from_str("# yaml-language-server: $schema=");
            c.append(url.as_str());
            SchemaAnnotation::Comment(c)
        },
        Format::Toml => {
            let mut c = String::from_str("#:schema ");
            c.append(url.as_str());
            SchemaAnnotation::Comment(c)
        },
        Format::Json => SchemaAnnotation::Field { key: String::from_str("$schema"), value: url },
    }
}

/// `document` preceded by the line `comment`.
pub fn with_comment(comment: &str, document: &str) -> (r: String)
    ensures
        r@ == comment@ + "\n"@ + document@,
{
    let mut r = String::from_str(comment);
    r.append("\n");
    r.append(document);
    r
}

} // verus!
