//! The error taxonomy of scene parsing, and the coarser errors of the
//! surrounding load/compile pipeline.

use vstd::prelude::*;
use vstd::string::StringExecFns;

verus! {

/// A failure while parsing one node of the scene document.
#[derive(Debug, Clone, PartialEq)]
pub enum NodeError {
    /// A mandatory field is missing or has the wrong shape: the owning
    /// node's name, then the field's name.
    Required(String, String),
    /// A color string is not recognized CSS color syntax; carries the
    /// offending text.
    InvalidColor(String),
    /// A layer entry is not a mapping.
    InvalidLayer,
    /// A layer mapping does not have exactly one key.
    InvalidLayerCount,
    /// A layer mapping's key is not a string.
    InvalidLayerDefine,
    /// A layer mapping's key names no recognized layer kind; carries the key.
    UnknownLayer(String),
    /// A vertex array has the wrong number of entries.
    InvalidVertex,
    /// A coordinate is not a two-number array.
    InvalidPoint,
}

/// The mathematical shape of a [`NodeError`]: the same variants over
/// character sequences.
pub enum NodeErrorView {
    Required(Seq<char>, Seq<char>),
    InvalidColor(Seq<char>),
    InvalidLayer,
    InvalidLayerCount,
    InvalidLayerDefine,
    UnknownLayer(Seq<char>),
    InvalidVertex,
    InvalidPoint,
}

impl View for NodeError {
    type V = NodeErrorView;

    open spec fn view(&self) -> NodeErrorView {
        match self {
            NodeError::Required(ctx, field) => NodeErrorView::Required(ctx@, field@),
            NodeError::InvalidColor(raw) => NodeErrorView::InvalidColor(raw@),
            NodeError::InvalidLayer => NodeErrorView::InvalidLayer,
            NodeError::InvalidLayerCount => NodeErrorView::InvalidLayerCount,
            NodeError::InvalidLayerDefine => NodeErrorView::InvalidLayerDefine,
            NodeError::UnknownLayer(name) => NodeErrorView::UnknownLayer(name@),
            NodeError::InvalidVertex => NodeErrorView::InvalidVertex,
            NodeError::InvalidPoint => NodeErrorView::InvalidPoint,
        }
    }
}

/// A parse result, seen at the specification level: the payload and the
/// error both replaced by their views.
pub open spec fn res_v<T: View>(r: Result<T, NodeError>) -> Result<T::V, NodeErrorView> {
    match r {
        Ok(x) => Ok(x@),
        Err(e) => Err(e@),
    }
}

/// The diagnostic text of a [`NodeError`], at the specification level.
pub open spec fn node_error_message(e: NodeErrorView) -> Seq<char> {
    match e {
        NodeErrorView::Required(ctx, field) => "'"@ + ctx + "' is required '"@ + field
            + "' option"@,
        NodeErrorView::InvalidColor(raw) => "invalid color format '"@ + raw + "'"@,
        NodeErrorView::InvalidLayer => "invalid layers"@,
        NodeErrorView::InvalidLayerCount => "invalid layers count"@,
        NodeErrorView::InvalidLayerDefine => "invalid layer define"@,
        NodeErrorView::UnknownLayer(name) => "unknown layer type '"@ + name + "'"@,
        NodeErrorView::InvalidVertex => "invalid vertex"@,
        NodeErrorView::InvalidPoint => "invalid point"@,
    }
}

impl NodeError {
    /// The diagnostic text of the error.
    pub fn message(&self) -> (r: String)
        ensures
            r@ == node_error_message(self@),
    {
        match self {
            NodeError::Required(ctx, field) => {
                let mut s = "'".to_owned();
                s.append(ctx.as_str());
                s.append("' is required '");
                s.append(field.as_str());
                s.append("' option");
                proof {
                    assert(s@ =~= node_error_message(self@));
                }
                s
            },
            NodeError::InvalidColor(raw) => {
                let mut s = "invalid color format '".to_owned();
                s.append(raw.as_str());
                s.append("'");
                proof {
                    assert(s@ =~= node_error_message(self@));
                }
                s
            },
            NodeError::InvalidLayer => "invalid layers".to_owned(),
            NodeError::InvalidLayerCount => "invalid layers count".to_owned(),
            NodeError::InvalidLayerDefine => "invalid layer define".to_owned(),
            NodeError::UnknownLayer(name) => {
                let mut s = "unknown layer type '".to_owned();
                s.append(name.as_str());
                s.append("'");
                proof {
                    assert(s@ =~= node_error_message(self@));
                }
                s
            },
            NodeError::InvalidVertex => "invalid vertex".to_owned(),
            NodeError::InvalidPoint => "invalid point".to_owned(),
        }
    }
}

/// A failure while loading a source document, before any parsing of the
/// scene itself.
#[derive(Debug, Clone, PartialEq)]
pub enum LoadError {
    /// The source file could not be opened; carries its path.
    OpenError(String),
    /// The source file could not be read; carries its path.
    ReadError(String),
    /// The source text is not a well-formed document; carries its path.
    ParseError(String),
    /// The source text holds no document at all.
    NoEntryError,
    /// The source text holds more than one document.
    TooManyEntryError,
}

impl LoadError {
    /// The diagnostic text of the error.
    pub fn message(&self) -> (r: String)
        ensures
            match self {
                LoadError::OpenError(p) => r@ == "file open error! path: '"@ + p@ + "'"@,
                LoadError::ReadError(p) => r@ == "file read error! path: '"@ + p@ + "'"@,
                LoadError::ParseError(p) => r@ == "invalid yaml format! path: '"@ + p@ + "'"@,
                LoadError::NoEntryError => r@ == "yaml has no entry!"@,
                LoadError::TooManyEntryError => r@ == "yaml has too many entry!"@,
            },
    {
        match self {
            LoadError::OpenError(p) => quoted_path("file open error! path: '", p),
            LoadError::ReadError(p) => quoted_path("file read error! path: '", p),
            LoadError::ParseError(p) => quoted_path("invalid yaml format! path: '", p),
            LoadError::NoEntryError => "yaml has no entry!".to_owned(),
            LoadError::TooManyEntryError => "yaml has too many entry!".to_owned(),
        }
    }
}

/// `prefix`, then `path`, then a closing quote.
fn quoted_path(prefix: &str, path: &String) -> (r: String)
    ensures
        r@ == prefix@ + path@ + "'"@,
{
    let mut s = prefix.to_owned();
    s.append(path.as_str());
    s.append("'");
    proof {
        assert(s@ =~= prefix@ + path@ + "'"@);
    }
    s
}

/// A failure of the whole compilation pipeline.
#[derive(Debug, Clone, PartialEq)]
pub enum CompileError {
    /// Loading the source failed; carries the load diagnostic.
    LoadError(String),
    /// Parsing the scene failed; carries the parse diagnostic.
    ParseError(String),
    /// The output file could not be written; carries its path.
    OutputError(String),
    /// Encoding the output image failed.
    ExportError,
}

impl CompileError {
    /// The diagnostic text of the error.
    pub fn message(&self) -> (r: String)
        ensures
            match self {
                CompileError::LoadError(x) => r@ == x@,
                CompileError::ParseError(x) => r@ == x@,
                CompileError::OutputError(p) => r@ == "file output error! path: '"@ + p@
                    + "'"@,
                CompileError::ExportError => r@ == "file export error!"@,
            },
    {
        match self {
            CompileError::LoadError(x) => x.clone(),
            CompileError::ParseError(x) => x.clone(),
            CompileError::OutputError(p) => quoted_path("file output error! path: '", p),
            CompileError::ExportError => "file export error!".to_owned(),
        }
    }
}

} // verus!
