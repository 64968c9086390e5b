//! Language definitions: the syntax regions of each language and the lookup
//! of a language by file extension, file name, shebang line or display name.
use vstd::prelude::*;

use crate::engine::text::chars_eq;
use crate::engine::text::chars_of;
use crate::engine::text::first_two_words;
use crate::engine::text::first_two_words_of;
use crate::engine::text::last_segment;
use crate::engine::text::last_segment_of;
use crate::engine::text::ascii_lower;
use crate::engine::text::to_ascii_lower;
use crate::engine::fsm::model::doc_rank;
use crate::engine::fsm::model::prefixes_nonempty;

verus! {

/// How the language of an embedded child region is detected.
#[derive(Clone, Copy, PartialEq, Eq, Structural)]
pub enum Detection {
    /// From the identifier after the opening fence (e.g. ```` ```rust ````).
    Fence,
    /// From the `lang` or `type` attribute of the opening tag.
    Tag,
    /// Always the default language of the region.
    Fixed,
}

/// What a delimited region of source text is.
#[derive(Clone, Copy)]
pub enum RegionKind {
    /// Lines are comments; `close` is a single newline for line comments.
    Comment { nested: bool, close_line_is_code: bool },
    /// Lines are code; the delimited content is opaque.
    String { escape: bool },
    /// The content belongs to a child language until `close`.
    Child { default_lang: Option<&'static str>, detect: Detection },
}

/// A delimited region of a language's syntax.
pub struct Region {
    pub open: Vec<u8>,
    pub close: Vec<u8>,
    pub kind: RegionKind,
}

/// The mathematical value of a [`Region`].
#[verifier::ext_equal]
pub struct RegionView {
    pub open: Seq<u8>,
    pub close: Seq<u8>,
    pub kind: RegionKind,
}

impl View for Region {
    type V = RegionView;

    open spec fn view(&self) -> RegionView {
        RegionView { open: self.open@, close: self.close@, kind: self.kind }
    }
}

/// Whether text outside any region is code or comment.
#[derive(Clone, Copy, PartialEq, Eq, Structural)]
pub enum DefaultMode {
    Code,
    Comment,
}

/// Languages whose files are a structured document rather than text lines.
#[derive(Clone, Copy, PartialEq, Eq, Structural)]
pub enum StructuredFormat {
    /// Plain text lines.
    Text,
    /// A Jupyter notebook (JSON document of cells).
    Jupyter,
}

/// Static definition of a language's syntax.
pub struct LanguageDef {
    pub name: &'static str,
    /// Regions, ordered by decreasing length of the opening delimiter.
    pub regions: Vec<Region>,
    /// The bytes at which the classifier must stop: newline and the first byte
    /// of every opening delimiter, in increasing order.
    pub interest_bytes: Vec<u8>,
    pub default_mode: DefaultMode,
    pub structured_format: StructuredFormat,
    /// Line prefixes that introduce a leading documentation block in Markdown.
    pub leading_doc_prefixes: Vec<Vec<u8>>,
}

/// The mathematical value of a [`LanguageDef`].
#[verifier::ext_equal]
pub struct LanguageView {
    pub name: &'static str,
    pub regions: Seq<RegionView>,
    pub interest_bytes: Seq<u8>,
    pub default_mode: DefaultMode,
    pub structured_format: StructuredFormat,
    pub leading_doc_prefixes: Seq<Seq<u8>>,
}

impl View for LanguageDef {
    type V = LanguageView;

    open spec fn view(&self) -> LanguageView {
        LanguageView {
            name: self.name,
            regions: self.regions@.map_values(|r: Region| r@),
            interest_bytes: self.interest_bytes@,
            default_mode: self.default_mode,
            structured_format: self.structured_format,
            leading_doc_prefixes: self.leading_doc_prefixes@.map_values(|p: Vec<u8>| p@),
        }
    }
}

/// Number of languages the library defines.
pub const LANGUAGE_COUNT: usize = 226;

/// A comment region.
pub open spec fn comment_view(open: Seq<u8>, close: Seq<u8>, nested: bool, close_line_is_code: bool) -> RegionView {
    RegionView { open, close, kind: RegionKind::Comment { nested, close_line_is_code } }
}

/// A string region.
pub open spec fn string_view(open: Seq<u8>, close: Seq<u8>, escape: bool) -> RegionView {
    RegionView { open, close, kind: RegionKind::String { escape } }
}

/// A child-language region.
pub open spec fn child_view(open: Seq<u8>, close: Seq<u8>, default_lang: Option<&'static str>, detect: Detection) -> RegionView {
    RegionView { open, close, kind: RegionKind::Child { default_lang, detect } }
}

fn comment_region(open: Vec<u8>, close: Vec<u8>, nested: bool, close_line_is_code: bool) -> (r: Region)
    ensures
        r@ == comment_view(open@, close@, nested, close_line_is_code),
{
    Region { open, close, kind: RegionKind::Comment { nested, close_line_is_code } }
}

fn string_region(open: Vec<u8>, close: Vec<u8>, escape: bool) -> (r: Region)
    ensures
        r@ == string_view(open@, close@, escape),
{
    Region { open, close, kind: RegionKind::String { escape } }
}

fn child_region(open: Vec<u8>, close: Vec<u8>, default_lang: Option<&'static str>, detect: Detection) -> (r: Region)
    ensures
        r@ == child_view(open@, close@, default_lang, detect),
{
    Region { open, close, kind: RegionKind::Child { default_lang, detect } }
}

// ---------------------------------------------------------------------------
// The languages

/// .NET Resource.
pub open spec fn dotnet_resource_view() -> LanguageView {
    LanguageView {
        name: ".NET Resource",
        regions: seq![comment_view(seq![60u8, 33u8, 45u8, 45u8], seq![45u8, 45u8, 62u8], false, false), string_view(seq![34u8], seq![34u8], true)],
        interest_bytes: seq![10u8, 34u8, 60u8],
        default_mode: DefaultMode::Code,
        structured_format: StructuredFormat::Text,
        leading_doc_prefixes: seq![],
    }
}

/// .NET Resource (<!-- ... -->; " ... ").
fn define_dotnet_resource() -> (l: LanguageDef)
    ensures
        l@ == dotnet_resource_view(),
{
    let mut regions: Vec<Region> = Vec::new();
    regions.push(comment_region(vec![60u8, 33u8, 45u8, 45u8], vec![45u8, 45u8, 62u8], false, false));
    regions.push(string_region(vec![34u8], vec![34u8], true));
    let mut prefixes: Vec<Vec<u8>> = Vec::new();
    let l = LanguageDef {
        name: ".NET Resource",
        regions,
        interest_bytes: vec![10u8, 34u8, 60u8],
        default_mode: DefaultMode::Code,
        structured_format: StructuredFormat::Text,
        leading_doc_prefixes: prefixes,
    };
    assert(l@ =~~= dotnet_resource_view());
    l
}

/// ABAP.
pub open spec fn abap_view() -> LanguageView {
    LanguageView {
        name: "ABAP",
        regions: seq![comment_view(seq![42u8], seq![10u8], false, false), comment_view(seq![34u8], seq![10u8], false, false)],
        interest_bytes: seq![10u8, 34u8, 42u8],
        default_mode: DefaultMode::Code,
        structured_format: StructuredFormat::Text,
        leading_doc_prefixes: seq![],
    }
}

/// ABAP (* ... newline; " ... newline).
fn define_abap() -> (l: LanguageDef)
    ensures
        l@ == abap_view(),
{
    let mut regions: Vec<Region> = Vec::new();
    regions.push(comment_region(vec![42u8], vec![10u8], false, false));
    regions.push(comment_region(vec![34u8], vec![10u8], false, false));
    let mut prefixes: Vec<Vec<u8>> = Vec::new();
    let l = LanguageDef {
        name: "ABAP",
        regions,
        interest_bytes: vec![10u8, 34u8, 42u8],
        default_mode: DefaultMode::Code,
        structured_format: StructuredFormat::Text,
        leading_doc_prefixes: prefixes,
    };
    assert(l@ =~~= abap_view());
    l
}

/// ABNF.
pub open spec fn abnf_view() -> LanguageView {
    LanguageView {
        name: "ABNF",
        regions: seq![comment_view(seq![59u8], seq![10u8], false, false)],
        interest_bytes: seq![10u8, 59u8],
        default_mode: DefaultMode::Code,
        structured_format: StructuredFormat::Text,
        leading_doc_prefixes: seq![],
    }
}

/// ABNF (; ... newline).
fn define_abnf() -> (l: LanguageDef)
    ensures
        l@ == abnf_view(),
{
    let mut regions: Vec<Region> = Vec::new();
    regions.push(comment_region(vec![59u8], vec![10u8], false, false));
    let mut prefixes: Vec<Vec<u8>> = Vec::new();
    let l = LanguageDef {
        name: "ABNF",
        regions,
        interest_bytes: vec![10u8, 59u8],
        default_mode: DefaultMode::Code,
        structured_format: StructuredFormat::Text,
        leading_doc_prefixes: prefixes,
    };
    assert(l@ =~~= abnf_view());
    l
}

/// ASN.1.
pub open spec fn asn_1_view() -> LanguageView {
    LanguageView {
        name: "ASN.1",
        regions: seq![comment_view(seq![45u8, 45u8], seq![10u8], false, false), comment_view(seq![47u8, 42u8], seq![42u8, 47u8], false, false), string_view(seq![34u8], seq![34u8], true), string_view(seq![39u8], seq![39u8], true)],
        interest_bytes: seq![10u8, 34u8, 39u8, 45u8, 47u8],
        default_mode: DefaultMode::Code,
        structured_format: StructuredFormat::Text,
        leading_doc_prefixes: seq![],
    }
}

/// ASN.1 (-- ... newline; /* ... */; " ... "; ' ... ').
fn define_asn_1() -> (l: LanguageDef)
    ensures
        l@ == asn_1_view(),
{
    let mut regions: Vec<Region> = Vec::new();
    regions.push(comment_region(vec![45u8, 45u8], vec![10u8], false, false));
    regions.push(comment_region(vec![47u8, 42u8], vec![42u8, 47u8], false, false));
    regions.push(string_region(vec![34u8], vec![34u8], true));
    regions.push(string_region(vec![39u8], vec![39u8], true));
    let mut prefixes: Vec<Vec<u8>> = Vec::new();
    let l = LanguageDef {
        name: "ASN.1",
        regions,
        interest_bytes: vec![10u8, 34u8, 39u8, 45u8, 47u8],
        default_mode: DefaultMode::Code,
        structured_format: StructuredFormat::Text,
        leading_doc_prefixes: prefixes,
    };
    assert(l@ =~~= asn_1_view());
    l
}

/// ASP.
pub open spec fn asp_view() -> LanguageView {
    LanguageView {
        name: "ASP",
        regions: seq![comment_view(seq![82u8, 69u8, 77u8], seq![10u8], false, false), comment_view(seq![39u8], seq![10u8], false, false)],
        interest_bytes: seq![10u8, 39u8, 82u8],
        default_mode: DefaultMode::Code,
        structured_format: StructuredFormat::Text,
        leading_doc_prefixes: seq![],
    }
}

/// ASP (REM ... newline; ' ... newline).
fn define_asp() -> (l: LanguageDef)
    ensures
        l@ == asp_view(),
{
    let mut regions: Vec<Region> = Vec::new();
    regions.push(comment_region(vec![82u8, 69u8, 77u8], vec![10u8], false, false));
    regions.push(comment_region(vec![39u8], vec![10u8], false, false));
    let mut prefixes: Vec<Vec<u8>> = Vec::new();
    let l = LanguageDef {
        name: "ASP",
        regions,
        interest_bytes: vec![10u8, 39u8, 82u8],
        default_mode: DefaultMode::Code,
        structured_format: StructuredFormat::Text,
        leading_doc_prefixes: prefixes,
    };
    assert(l@ =~~= asp_view());
    l
}

/// ASP.NET.
pub open spec fn asp_net_view() -> LanguageView {
    LanguageView {
        name: "ASP.NET",
        regions: seq![comment_view(seq![60u8, 33u8, 45u8, 45u8], seq![45u8, 45u8, 62u8], false, false), comment_view(seq![60u8, 37u8, 45u8, 45u8], seq![45u8, 45u8, 62u8], false, false)],
        interest_bytes: seq![10u8, 60u8],
        default_mode: DefaultMode::Code,
        structured_format: StructuredFormat::Text,
        leading_doc_prefixes: seq![],
    }
}

/// ASP.NET (<!-- ... -->; <%-- ... -->).
fn define_asp_net() -> (l: LanguageDef)
    ensures
        l@ == asp_net_view(),
{
    let mut regions: Vec<Region> = Vec::new();
    regions.push(comment_region(vec![60u8, 33u8, 45u8, 45u8], vec![45u8, 45u8, 62u8], false, false));
    regions.push(comment_region(vec![60u8, 37u8, 45u8, 45u8], vec![45u8, 45u8, 62u8], false, false));
    let mut prefixes: Vec<Vec<u8>> = Vec::new();
    let l = LanguageDef {
        name: "ASP.NET",
        regions,
        interest_bytes: vec![10u8, 60u8],
        default_mode: DefaultMode::Code,
        structured_format: StructuredFormat::Text,
        leading_doc_prefixes: prefixes,
    };
    assert(l@ =~~= asp_net_view());
    l
}

/// ActionScript.
pub open spec fn actionscript_view() -> LanguageView {
    LanguageView {
        name: "ActionScript",
        regions: seq![comment_view(seq![47u8, 47u8], seq![10u8], false, false), comment_view(seq![47u8, 42u8], seq![42u8, 47u8], false, false), string_view(seq![34u8], seq![34u8], true)],
        interest_bytes: seq![10u8, 34u8, 47u8],
        default_mode: DefaultMode::Code,
        structured_format: StructuredFormat::Text,
        leading_doc_prefixes: seq![],
    }
}

/// ActionScript (// ... newline; /* ... */; " ... ").
fn define_actionscript() -> (l: LanguageDef)
    ensures
        l@ == actionscript_view(),
{
    let mut regions: Vec<Region> = Vec::new();
    regions.push(comment_region(vec![47u8, 47u8], vec![10u8], false, false));
    regions.push(comment_region(vec![47u8, 42u8], vec![42u8, 47u8], false, false));
    regions.push(string_region(vec![34u8], vec![34u8], true));
    let mut prefixes: Vec<Vec<u8>> = Vec::new();
    let l = LanguageDef {
        name: "ActionScript",
        regions,
        interest_bytes: vec![10u8, 34u8, 47u8],
        default_mode: DefaultMode::Code,
        structured_format: StructuredFormat::Text,
        leading_doc_prefixes: prefixes,
    };
    assert(l@ =~~= actionscript_view());
    l
}

/// Ada.
pub open spec fn ada_view() -> LanguageView {
    LanguageView {
        name: "Ada",
        regions: seq![comment_view(seq![45u8, 45u8], seq![10u8], false, false)],
        interest_bytes: seq![10u8, 45u8],
        default_mode: DefaultMode::Code,
        structured_format: StructuredFormat::Text,
        leading_doc_prefixes: seq![],
    }
}

/// Ada (-- ... newline).
fn define_ada() -> (l: LanguageDef)
    ensures
        l@ == ada_view(),
{
    let mut regions: Vec<Region> = Vec::new();
    regions.push(comment_region(vec![45u8, 45u8], vec![10u8], false, false));
    let mut prefixes: Vec<Vec<u8>> = Vec::new();
    let l = LanguageDef {
        name: "Ada",
        regions,
        interest_bytes: vec![10u8, 45u8],
        default_mode: DefaultMode::Code,
        structured_format: StructuredFormat::Text,
        leading_doc_prefixes: prefixes,
    };
    assert(l@ =~~= ada_view());
    l
}

/// Agda.
pub open spec fn agda_view() -> LanguageView {
    LanguageView {
        name: "Agda",
        regions: seq![comment_view(seq![45u8, 45u8], seq![10u8], false, false), comment_view(seq![123u8, 45u8], seq![45u8, 125u8], true, false)],
        interest_bytes: seq![10u8, 45u8, 123u8],
        default_mode: DefaultMode::Code,
        structured_format: StructuredFormat::Text,
        leading_doc_prefixes: seq![],
    }
}

/// Agda (-- ... newline; {- ... -}).
fn define_agda() -> (l: LanguageDef)
    ensures
        l@ == agda_view(),
{
    let mut regions: Vec<Region> = Vec::new();
    regions.push(comment_region(vec![45u8, 45u8], vec![10u8], false, false));
    regions.push(comment_region(vec![123u8, 45u8], vec![45u8, 125u8], true, false));
    let mut prefixes: Vec<Vec<u8>> = Vec::new();
    let l = LanguageDef {
        name: "Agda",
        regions,
        interest_bytes: vec![10u8, 45u8, 123u8],
        default_mode: DefaultMode::Code,
        structured_format: StructuredFormat::Text,
        leading_doc_prefixes: prefixes,
    };
    assert(l@ =~~= agda_view());
    l
}

/// Alex.
pub open spec fn alex_view() -> LanguageView {
    LanguageView {
        name: "Alex",
        regions: seq![],
        interest_bytes: seq![10u8],
        default_mode: DefaultMode::Code,
        structured_format: StructuredFormat::Text,
        leading_doc_prefixes: seq![],
    }
}

/// Alex (no regions).
fn define_alex() -> (l: LanguageDef)
    ensures
        l@ == alex_view(),
{
    let mut regions: Vec<Region> = Vec::new();
    let mut prefixes: Vec<Vec<u8>> = Vec::new();
    let l = LanguageDef {
        name: "Alex",
        regions,
        interest_bytes: vec![10u8],
        default_mode: DefaultMode::Code,
        structured_format: StructuredFormat::Text,
        leading_doc_prefixes: prefixes,
    };
    assert(l@ =~~= alex_view());
    l
}

/// Alloy.
pub open spec fn alloy_view() -> LanguageView {
    LanguageView {
        name: "Alloy",
        regions: seq![comment_view(seq![45u8, 45u8], seq![10u8], false, false), comment_view(seq![47u8, 47u8], seq![10u8], false, false), comment_view(seq![47u8, 42u8], seq![42u8, 47u8], false, false)],
        interest_bytes: seq![10u8, 45u8, 47u8],
        default_mode: DefaultMode::Code,
        structured_format: StructuredFormat::Text,
        leading_doc_prefixes: seq![],
    }
}

/// Alloy (-- ... newline; // ... newline; /* ... */).
fn define_alloy() -> (l: LanguageDef)
    ensures
        l@ == alloy_view(),
{
    let mut regions: Vec<Region> = Vec::new();
    regions.push(comment_region(vec![45u8, 45u8], vec![10u8], false, false));
    regions.push(comment_region(vec![47u8, 47u8], vec![10u8], false, false));
    regions.push(comment_region(vec![47u8, 42u8], vec![42u8, 47u8], false, false));
    let mut prefixes: Vec<Vec<u8>> = Vec::new();
    let l = LanguageDef {
        name: "Alloy",
        regions,
        interest_bytes: vec![10u8, 45u8, 47u8],
        default_mode: DefaultMode::Code,
        structured_format: StructuredFormat::Text,
        leading_doc_prefixes: prefixes,
    };
    assert(l@ =~~= alloy_view());
    l
}

/// Apache Velocity.
pub open spec fn apache_velocity_view() -> LanguageView {
    LanguageView {
        name: "Apache Velocity",
        regions: seq![comment_view(seq![35u8, 35u8], seq![10u8], false, false), comment_view(seq![35u8, 42u8], seq![42u8, 35u8], false, false), string_view(seq![39u8], seq![39u8], true), string_view(seq![34u8], seq![34u8], true)],
        interest_bytes: seq![10u8, 34u8, 35u8, 39u8],
        default_mode: DefaultMode::Code,
        structured_format: StructuredFormat::Text,
        leading_doc_prefixes: seq![],
    }
}

/// Apache Velocity (## ... newline; #* ... *#; ' ... '; " ... ").
fn define_apache_velocity() -> (l: LanguageDef)
    ensures
        l@ == apache_velocity_view(),
{
    let mut regions: Vec<Region> = Vec::new();
    regions.push(comment_region(vec![35u8, 35u8], vec![10u8], false, false));
    regions.push(comment_region(vec![35u8, 42u8], vec![42u8, 35u8], false, false));
    regions.push(string_region(vec![39u8], vec![39u8], true));
    regions.push(string_region(vec![34u8], vec![34u8], true));
    let mut prefixes: Vec<Vec<u8>> = Vec::new();
    let l = LanguageDef {
        name: "Apache Velocity",
        regions,
        interest_bytes: vec![10u8, 34u8, 35u8, 39u8],
        default_mode: DefaultMode::Code,
        structured_format: StructuredFormat::Text,
        leading_doc_prefixes: prefixes,
    };
    assert(l@ =~~= apache_velocity_view());
    l
}

/// Arduino C++.
pub open spec fn arduino_cpp_view() -> LanguageView {
    LanguageView {
        name: "Arduino C++",
        regions: seq![comment_view(seq![47u8, 47u8], seq![10u8], false, false), comment_view(seq![47u8, 42u8], seq![42u8, 47u8], false, false), string_view(seq![34u8], seq![34u8], true)],
        interest_bytes: seq![10u8, 34u8, 47u8],
        default_mode: DefaultMode::Code,
        structured_format: StructuredFormat::Text,
        leading_doc_prefixes: seq![],
    }
}

/// Arduino C++ (// ... newline; /* ... */; " ... ").
fn define_arduino_cpp() -> (l: LanguageDef)
    ensures
        l@ == arduino_cpp_view(),
{
    let mut regions: Vec<Region> = Vec::new();
    regions.push(comment_region(vec![47u8, 47u8], vec![10u8], false, false));
    regions.push(comment_region(vec![47u8, 42u8], vec![42u8, 47u8], false, false));
    regions.push(string_region(vec![34u8], vec![34u8], true));
    let mut prefixes: Vec<Vec<u8>> = Vec::new();
    let l = LanguageDef {
        name: "Arduino C++",
        regions,
        interest_bytes: vec![10u8, 34u8, 47u8],
        default_mode: DefaultMode::Code,
        structured_format: StructuredFormat::Text,
        leading_doc_prefixes: prefixes,
    };
    assert(l@ =~~= arduino_cpp_view());
    l
}

/// AsciiDoc.
pub open spec fn asciidoc_view() -> LanguageView {
    LanguageView {
        name: "AsciiDoc",
        regions: seq![comment_view(seq![47u8, 47u8, 47u8, 47u8], seq![47u8, 47u8, 47u8, 47u8], false, false), comment_view(seq![47u8, 47u8], seq![10u8], false, false)],
        interest_bytes: seq![10u8, 47u8],
        default_mode: DefaultMode::Code,
        structured_format: StructuredFormat::Text,
        leading_doc_prefixes: seq![],
    }
}

/// AsciiDoc (//// ... ////; // ... newline).
fn define_asciidoc() -> (l: LanguageDef)
    ensures
        l@ == asciidoc_view(),
{
    let mut regions: Vec<Region> = Vec::new();
    regions.push(comment_region(vec![47u8, 47u8, 47u8, 47u8], vec![47u8, 47u8, 47u8, 47u8], false, false));
    regions.push(comment_region(vec![47u8, 47u8], vec![10u8], false, false));
    let mut prefixes: Vec<Vec<u8>> = Vec::new();
    let l = LanguageDef {
        name: "AsciiDoc",
        regions,
        interest_bytes: vec![10u8, 47u8],
        default_mode: DefaultMode::Code,
        structured_format: StructuredFormat::Text,
        leading_doc_prefixes: prefixes,
    };
    assert(l@ =~~= asciidoc_view());
    l
}

/// Assembly.
pub open spec fn assembly_view() -> LanguageView {
    LanguageView {
        name: "Assembly",
        regions: seq![comment_view(seq![59u8], seq![10u8], false, false), string_view(seq![34u8], seq![34u8], true), string_view(seq![39u8], seq![39u8], true)],
        interest_bytes: seq![10u8, 34u8, 39u8, 59u8],
        default_mode: DefaultMode::Code,
        structured_format: StructuredFormat::Text,
        leading_doc_prefixes: seq![],
    }
}

/// Assembly (; ... newline; " ... "; ' ... ').
fn define_assembly() -> (l: LanguageDef)
    ensures
        l@ == assembly_view(),
{
    let mut regions: Vec<Region> = Vec::new();
    regions.push(comment_region(vec![59u8], vec![10u8], false, false));
    regions.push(string_region(vec![34u8], vec![34u8], true));
    regions.push(string_region(vec![39u8], vec![39u8], true));
    let mut prefixes: Vec<Vec<u8>> = Vec::new();
    let l = LanguageDef {
        name: "Assembly",
        regions,
        interest_bytes: vec![10u8, 34u8, 39u8, 59u8],
        default_mode: DefaultMode::Code,
        structured_format: StructuredFormat::Text,
        leading_doc_prefixes: prefixes,
    };
    assert(l@ =~~= assembly_view());
    l
}

/// AutoHotKey.
pub open spec fn autohotkey_view() -> LanguageView {
    LanguageView {
        name: "AutoHotKey",
        regions: seq![comment_view(seq![47u8, 42u8], seq![42u8, 47u8], false, false), comment_view(seq![59u8], seq![10u8], false, false)],
        interest_bytes: seq![10u8, 47u8, 59u8],
        default_mode: DefaultMode::Code,
        structured_format: StructuredFormat::Text,
        leading_doc_prefixes: seq![],
    }
}

/// AutoHotKey (/* ... */; ; ... newline).
fn define_autohotkey() -> (l: LanguageDef)
    ensures
        l@ == autohotkey_view(),
{
    let mut regions: Vec<Region> = Vec::new();
    regions.push(comment_region(vec![47u8, 42u8], vec![42u8, 47u8], false, false));
    regions.push(comment_region(vec![59u8], vec![10u8], false, false));
    let mut prefixes: Vec<Vec<u8>> = Vec::new();
    let l = LanguageDef {
        name: "AutoHotKey",
        regions,
        interest_bytes: vec![10u8, 47u8, 59u8],
        default_mode: DefaultMode::Code,
        structured_format: StructuredFormat::Text,
        leading_doc_prefixes: prefixes,
    };
    assert(l@ =~~= autohotkey_view());
    l
}

/// Autoconf.
pub open spec fn autoconf_view() -> LanguageView {
    LanguageView {
        name: "Autoconf",
        regions: seq![comment_view(seq![100u8, 110u8, 108u8], seq![10u8], false, false), comment_view(seq![35u8], seq![10u8], false, false)],
        interest_bytes: seq![10u8, 35u8, 100u8],
        default_mode: DefaultMode::Code,
        structured_format: StructuredFormat::Text,
        leading_doc_prefixes: seq![],
    }
}

/// Autoconf (dnl ... newline; # ... newline).
fn define_autoconf() -> (l: LanguageDef)
    ensures
        l@ == autoconf_view(),
{
    let mut regions: Vec<Region> = Vec::new();
    regions.push(comment_region(vec![100u8, 110u8, 108u8], vec![10u8], false, false));
    regions.push(comment_region(vec![35u8], vec![10u8], false, false));
    let mut prefixes: Vec<Vec<u8>> = Vec::new();
    let l = LanguageDef {
        name: "Autoconf",
        regions,
        interest_bytes: vec![10u8, 35u8, 100u8],
        default_mode: DefaultMode::Code,
        structured_format: StructuredFormat::Text,
        leading_doc_prefixes: prefixes,
    };
    assert(l@ =~~= autoconf_view());
    l
}

/// Automake.
pub open spec fn automake_view() -> LanguageView {
    LanguageView {
        name: "Automake",
        regions: seq![comment_view(seq![35u8], seq![10u8], false, false)],
        interest_bytes: seq![10u8, 35u8],
        default_mode: DefaultMode::Code,
        structured_format: StructuredFormat::Text,
        leading_doc_prefixes: seq![],
    }
}

/// Automake (# ... newline).
fn define_automake() -> (l: LanguageDef)
    ensures
        l@ == automake_view(),
{
    let mut regions: Vec<Region> = Vec::new();
    regions.push(comment_region(vec![35u8], vec![10u8], false, false));
    let mut prefixes: Vec<Vec<u8>> = Vec::new();
    let l = LanguageDef {
        name: "Automake",
        regions,
        interest_bytes: vec![10u8, 35u8],
        default_mode: DefaultMode::Code,
        structured_format: StructuredFormat::Text,
        leading_doc_prefixes: prefixes,
    };
    assert(l@ =~~= automake_view());
    l
}

/// BASH.
pub open spec fn bash_view() -> LanguageView {
    LanguageView {
        name: "BASH",
        regions: seq![comment_view(seq![35u8], seq![10u8], false, false), string_view(seq![34u8], seq![34u8], true), string_view(seq![39u8], seq![39u8], true)],
        interest_bytes: seq![10u8, 34u8, 35u8, 39u8],
        default_mode: DefaultMode::Code,
        structured_format: StructuredFormat::Text,
        leading_doc_prefixes: seq![],
    }
}

/// BASH (# ... newline; " ... "; ' ... ').
fn define_bash() -> (l: LanguageDef)
    ensures
        l@ == bash_view(),
{
    let mut regions: Vec<Region> = Vec::new();
    regions.push(comment_region(vec![35u8], vec![10u8], false, false));
    regions.push(string_region(vec![34u8], vec![34u8], true));
    regions.push(string_region(vec![39u8], vec![39u8], true));
    let mut prefixes: Vec<Vec<u8>> = Vec::new();
    let l = LanguageDef {
        name: "BASH",
        regions,
        interest_bytes: vec![10u8, 34u8, 35u8, 39u8],
        default_mode: DefaultMode::Code,
        structured_format: StructuredFormat::Text,
        leading_doc_prefixes: prefixes,
    };
    assert(l@ =~~= bash_view());
    l
}

/// Batch.
pub open spec fn batch_view() -> LanguageView {
    LanguageView {
        name: "Batch",
        regions: seq![comment_view(seq![82u8, 69u8, 77u8], seq![10u8], false, false), comment_view(seq![58u8, 58u8], seq![10u8], false, false)],
        interest_bytes: seq![10u8, 58u8, 82u8],
        default_mode: DefaultMode::Code,
        structured_format: StructuredFormat::Text,
        leading_doc_prefixes: seq![],
    }
}

/// Batch (REM ... newline; :: ... newline).
fn define_batch() -> (l: LanguageDef)
    ensures
        l@ == batch_view(),
{
    let mut regions: Vec<Region> = Vec::new();
    regions.push(comment_region(vec![82u8, 69u8, 77u8], vec![10u8], false, false));
    regions.push(comment_region(vec![58u8, 58u8], vec![10u8], false, false));
    let mut prefixes: Vec<Vec<u8>> = Vec::new();
    let l = LanguageDef {
        name: "Batch",
        regions,
        interest_bytes: vec![10u8, 58u8, 82u8],
        default_mode: DefaultMode::Code,
        structured_format: StructuredFormat::Text,
        leading_doc_prefixes: prefixes,
    };
    assert(l@ =~~= batch_view());
    l
}

/// Bean.
pub open spec fn bean_view() -> LanguageView {
    LanguageView {
        name: "Bean",
        regions: seq![comment_view(seq![59u8], seq![10u8], false, false), string_view(seq![34u8], seq![34u8], true)],
        interest_bytes: seq![10u8, 34u8, 59u8],
        default_mode: DefaultMode::Code,
        structured_format: StructuredFormat::Text,
        leading_doc_prefixes: seq![],
    }
}

/// Bean (; ... newline; " ... ").
fn define_bean() -> (l: LanguageDef)
    ensures
        l@ == bean_view(),
{
    let mut regions: Vec<Region> = Vec::new();
    regions.push(comment_region(vec![59u8], vec![10u8], false, false));
    regions.push(string_region(vec![34u8], vec![34u8], true));
    let mut prefixes: Vec<Vec<u8>> = Vec::new();
    let l = LanguageDef {
        name: "Bean",
        regions,
        interest_bytes: vec![10u8, 34u8, 59u8],
        default_mode: DefaultMode::Code,
        structured_format: StructuredFormat::Text,
        leading_doc_prefixes: prefixes,
    };
    assert(l@ =~~= bean_view());
    l
}

/// BrightScript.
pub open spec fn brightscript_view() -> LanguageView {
    LanguageView {
        name: "BrightScript",
        regions: seq![comment_view(seq![82u8, 69u8, 77u8], seq![10u8], false, false), comment_view(seq![39u8], seq![10u8], false, false), string_view(seq![34u8], seq![34u8], true)],
        interest_bytes: seq![10u8, 34u8, 39u8, 82u8],
        default_mode: DefaultMode::Code,
        structured_format: StructuredFormat::Text,
        leading_doc_prefixes: seq![],
    }
}

/// BrightScript (REM ... newline; ' ... newline; " ... ").
fn define_brightscript() -> (l: LanguageDef)
    ensures
        l@ == brightscript_view(),
{
    let mut regions: Vec<Region> = Vec::new();
    regions.push(comment_region(vec![82u8, 69u8, 77u8], vec![10u8], false, false));
    regions.push(comment_region(vec![39u8], vec![10u8], false, false));
    regions.push(string_region(vec![34u8], vec![34u8], true));
    let mut prefixes: Vec<Vec<u8>> = Vec::new();
    let l = LanguageDef {
        name: "BrightScript",
        regions,
        interest_bytes: vec![10u8, 34u8, 39u8, 82u8],
        default_mode: DefaultMode::Code,
        structured_format: StructuredFormat::Text,
        leading_doc_prefixes: prefixes,
    };
    assert(l@ =~~= brightscript_view());
    l
}

/// C.
pub open spec fn c_view() -> LanguageView {
    LanguageView {
        name: "C",
        regions: seq![comment_view(seq![47u8, 47u8], seq![10u8], false, false), comment_view(seq![47u8, 42u8], seq![42u8, 47u8], false, false), string_view(seq![34u8], seq![34u8], true)],
        interest_bytes: seq![10u8, 34u8, 47u8],
        default_mode: DefaultMode::Code,
        structured_format: StructuredFormat::Text,
        leading_doc_prefixes: seq![],
    }
}

/// C (// ... newline; /* ... */; " ... ").
fn define_c() -> (l: LanguageDef)
    ensures
        l@ == c_view(),
{
    let mut regions: Vec<Region> = Vec::new();
    regions.push(comment_region(vec![47u8, 47u8], vec![10u8], false, false));
    regions.push(comment_region(vec![47u8, 42u8], vec![42u8, 47u8], false, false));
    regions.push(string_region(vec![34u8], vec![34u8], true));
    let mut prefixes: Vec<Vec<u8>> = Vec::new();
    let l = LanguageDef {
        name: "C",
        regions,
        interest_bytes: vec![10u8, 34u8, 47u8],
        default_mode: DefaultMode::Code,
        structured_format: StructuredFormat::Text,
        leading_doc_prefixes: prefixes,
    };
    assert(l@ =~~= c_view());
    l
}

/// C Header.
pub open spec fn c_header_view() -> LanguageView {
    LanguageView {
        name: "C Header",
        regions: seq![comment_view(seq![47u8, 47u8], seq![10u8], false, false), comment_view(seq![47u8, 42u8], seq![42u8, 47u8], false, false), string_view(seq![34u8], seq![34u8], true)],
        interest_bytes: seq![10u8, 34u8, 47u8],
        default_mode: DefaultMode::Code,
        structured_format: StructuredFormat::Text,
        leading_doc_prefixes: seq![],
    }
}

/// C Header (// ... newline; /* ... */; " ... ").
fn define_c_header() -> (l: LanguageDef)
    ensures
        l@ == c_header_view(),
{
    let mut regions: Vec<Region> = Vec::new();
    regions.push(comment_region(vec![47u8, 47u8], vec![10u8], false, false));
    regions.push(comment_region(vec![47u8, 42u8], vec![42u8, 47u8], false, false));
    regions.push(string_region(vec![34u8], vec![34u8], true));
    let mut prefixes: Vec<Vec<u8>> = Vec::new();
    let l = LanguageDef {
        name: "C Header",
        regions,
        interest_bytes: vec![10u8, 34u8, 47u8],
        default_mode: DefaultMode::Code,
        structured_format: StructuredFormat::Text,
        leading_doc_prefixes: prefixes,
    };
    assert(l@ =~~= c_header_view());
    l
}

/// C Shell.
pub open spec fn c_shell_view() -> LanguageView {
    LanguageView {
        name: "C Shell",
        regions: seq![comment_view(seq![35u8], seq![10u8], false, false)],
        interest_bytes: seq![10u8, 35u8],
        default_mode: DefaultMode::Code,
        structured_format: StructuredFormat::Text,
        leading_doc_prefixes: seq![],
    }
}

/// C Shell (# ... newline).
fn define_c_shell() -> (l: LanguageDef)
    ensures
        l@ == c_shell_view(),
{
    let mut regions: Vec<Region> = Vec::new();
    regions.push(comment_region(vec![35u8], vec![10u8], false, false));
    let mut prefixes: Vec<Vec<u8>> = Vec::new();
    let l = LanguageDef {
        name: "C Shell",
        regions,
        interest_bytes: vec![10u8, 35u8],
        default_mode: DefaultMode::Code,
        structured_format: StructuredFormat::Text,
        leading_doc_prefixes: prefixes,
    };
    assert(l@ =~~= c_shell_view());
    l
}

/// C#.
pub open spec fn csharp_view() -> LanguageView {
    LanguageView {
        name: "C#",
        regions: seq![comment_view(seq![47u8, 47u8], seq![10u8], false, false), comment_view(seq![47u8, 42u8], seq![42u8, 47u8], false, false), string_view(seq![64u8, 34u8], seq![34u8], false), string_view(seq![34u8], seq![34u8], true)],
        interest_bytes: seq![10u8, 34u8, 47u8, 64u8],
        default_mode: DefaultMode::Code,
        structured_format: StructuredFormat::Text,
        leading_doc_prefixes: seq![],
    }
}

/// C# (// ... newline; /* ... */; @" ... "; " ... ").
fn define_csharp() -> (l: LanguageDef)
    ensures
        l@ == csharp_view(),
{
    let mut regions: Vec<Region> = Vec::new();
    regions.push(comment_region(vec![47u8, 47u8], vec![10u8], false, false));
    regions.push(comment_region(vec![47u8, 42u8], vec![42u8, 47u8], false, false));
    regions.push(string_region(vec![64u8, 34u8], vec![34u8], false));
    regions.push(string_region(vec![34u8], vec![34u8], true));
    let mut prefixes: Vec<Vec<u8>> = Vec::new();
    let l = LanguageDef {
        name: "C#",
        regions,
        interest_bytes: vec![10u8, 34u8, 47u8, 64u8],
        default_mode: DefaultMode::Code,
        structured_format: StructuredFormat::Text,
        leading_doc_prefixes: prefixes,
    };
    assert(l@ =~~= csharp_view());
    l
}

/// C++.
pub open spec fn cpp_view() -> LanguageView {
    LanguageView {
        name: "C++",
        regions: seq![comment_view(seq![47u8, 47u8], seq![10u8], false, false), comment_view(seq![47u8, 42u8], seq![42u8, 47u8], false, false), string_view(seq![34u8], seq![34u8], true)],
        interest_bytes: seq![10u8, 34u8, 47u8],
        default_mode: DefaultMode::Code,
        structured_format: StructuredFormat::Text,
        leading_doc_prefixes: seq![],
    }
}

/// C++ (// ... newline; /* ... */; " ... ").
fn define_cpp() -> (l: LanguageDef)
    ensures
        l@ == cpp_view(),
{
    let mut regions: Vec<Region> = Vec::new();
    regions.push(comment_region(vec![47u8, 47u8], vec![10u8], false, false));
    regions.push(comment_region(vec![47u8, 42u8], vec![42u8, 47u8], false, false));
    regions.push(string_region(vec![34u8], vec![34u8], true));
    let mut prefixes: Vec<Vec<u8>> = Vec::new();
    let l = LanguageDef {
        name: "C++",
        regions,
        interest_bytes: vec![10u8, 34u8, 47u8],
        default_mode: DefaultMode::Code,
        structured_format: StructuredFormat::Text,
        leading_doc_prefixes: prefixes,
    };
    assert(l@ =~~= cpp_view());
    l
}

/// C++ Header.
pub open spec fn cpp_header_view() -> LanguageView {
    LanguageView {
        name: "C++ Header",
        regions: seq![comment_view(seq![47u8, 47u8], seq![10u8], false, false), comment_view(seq![47u8, 42u8], seq![42u8, 47u8], false, false), string_view(seq![34u8], seq![34u8], true)],
        interest_bytes: seq![10u8, 34u8, 47u8],
        default_mode: DefaultMode::Code,
        structured_format: StructuredFormat::Text,
        leading_doc_prefixes: seq![],
    }
}

/// C++ Header (// ... newline; /* ... */; " ... ").
fn define_cpp_header() -> (l: LanguageDef)
    ensures
        l@ == cpp_header_view(),
{
    let mut regions: Vec<Region> = Vec::new();
    regions.push(comment_region(vec![47u8, 47u8], vec![10u8], false, false));
    regions.push(comment_region(vec![47u8, 42u8], vec![42u8, 47u8], false, false));
    regions.push(string_region(vec![34u8], vec![34u8], true));
    let mut prefixes: Vec<Vec<u8>> = Vec::new();
    let l = LanguageDef {
        name: "C++ Header",
        regions,
        interest_bytes: vec![10u8, 34u8, 47u8],
        default_mode: DefaultMode::Code,
        structured_format: StructuredFormat::Text,
        leading_doc_prefixes: prefixes,
    };
    assert(l@ =~~= cpp_header_view());
    l
}

/// CMake.
pub open spec fn cmake_view() -> LanguageView {
    LanguageView {
        name: "CMake",
        regions: seq![comment_view(seq![35u8], seq![10u8], false, false), string_view(seq![34u8], seq![34u8], true)],
        interest_bytes: seq![10u8, 34u8, 35u8],
        default_mode: DefaultMode::Code,
        structured_format: StructuredFormat::Text,
        leading_doc_prefixes: seq![],
    }
}

/// CMake (# ... newline; " ... ").
fn define_cmake() -> (l: LanguageDef)
    ensures
        l@ == cmake_view(),
{
    let mut regions: Vec<Region> = Vec::new();
    regions.push(comment_region(vec![35u8], vec![10u8], false, false));
    regions.push(string_region(vec![34u8], vec![34u8], true));
    let mut prefixes: Vec<Vec<u8>> = Vec::new();
    let l = LanguageDef {
        name: "CMake",
        regions,
        interest_bytes: vec![10u8, 34u8, 35u8],
        default_mode: DefaultMode::Code,
        structured_format: StructuredFormat::Text,
        leading_doc_prefixes: prefixes,
    };
    assert(l@ =~~= cmake_view());
    l
}

/// COBOL.
pub open spec fn cobol_view() -> LanguageView {
    LanguageView {
        name: "COBOL",
        regions: seq![comment_view(seq![42u8], seq![10u8], false, false)],
        interest_bytes: seq![10u8, 42u8],
        default_mode: DefaultMode::Code,
        structured_format: StructuredFormat::Text,
        leading_doc_prefixes: seq![],
    }
}

/// COBOL (* ... newline).
fn define_cobol() -> (l: LanguageDef)
    ensures
        l@ == cobol_view(),
{
    let mut regions: Vec<Region> = Vec::new();
    regions.push(comment_region(vec![42u8], vec![10u8], false, false));
    let mut prefixes: Vec<Vec<u8>> = Vec::new();
    let l = LanguageDef {
        name: "COBOL",
        regions,
        interest_bytes: vec![10u8, 42u8],
        default_mode: DefaultMode::Code,
        structured_format: StructuredFormat::Text,
        leading_doc_prefixes: prefixes,
    };
    assert(l@ =~~= cobol_view());
    l
}

/// CSS.
pub open spec fn css_view() -> LanguageView {
    LanguageView {
        name: "CSS",
        regions: seq![comment_view(seq![47u8, 42u8], seq![42u8, 47u8], false, false), string_view(seq![34u8], seq![34u8], true), string_view(seq![39u8], seq![39u8], true)],
        interest_bytes: seq![10u8, 34u8, 39u8, 47u8],
        default_mode: DefaultMode::Code,
        structured_format: StructuredFormat::Text,
        leading_doc_prefixes: seq![],
    }
}

/// CSS (/* ... */; " ... "; ' ... ').
fn define_css() -> (l: LanguageDef)
    ensures
        l@ == css_view(),
{
    let mut regions: Vec<Region> = Vec::new();
    regions.push(comment_region(vec![47u8, 42u8], vec![42u8, 47u8], false, false));
    regions.push(string_region(vec![34u8], vec![34u8], true));
    regions.push(string_region(vec![39u8], vec![39u8], true));
    let mut prefixes: Vec<Vec<u8>> = Vec::new();
    let l = LanguageDef {
        name: "CSS",
        regions,
        interest_bytes: vec![10u8, 34u8, 39u8, 47u8],
        default_mode: DefaultMode::Code,
        structured_format: StructuredFormat::Text,
        leading_doc_prefixes: prefixes,
    };
    assert(l@ =~~= css_view());
    l
}

/// Cabal.
pub open spec fn cabal_view() -> LanguageView {
    LanguageView {
        name: "Cabal",
        regions: seq![comment_view(seq![45u8, 45u8], seq![10u8], false, false), comment_view(seq![123u8, 45u8], seq![45u8, 125u8], true, false)],
        interest_bytes: seq![10u8, 45u8, 123u8],
        default_mode: DefaultMode::Code,
        structured_format: StructuredFormat::Text,
        leading_doc_prefixes: seq![],
    }
}

/// Cabal (-- ... newline; {- ... -}).
fn define_cabal() -> (l: LanguageDef)
    ensures
        l@ == cabal_view(),
{
    let mut regions: Vec<Region> = Vec::new();
    regions.push(comment_region(vec![45u8, 45u8], vec![10u8], false, false));
    regions.push(comment_region(vec![123u8, 45u8], vec![45u8, 125u8], true, false));
    let mut prefixes: Vec<Vec<u8>> = Vec::new();
    let l = LanguageDef {
        name: "Cabal",
        regions,
        interest_bytes: vec![10u8, 45u8, 123u8],
        default_mode: DefaultMode::Code,
        structured_format: StructuredFormat::Text,
        leading_doc_prefixes: prefixes,
    };
    assert(l@ =~~= cabal_view());
    l
}

/// Cassius.
pub open spec fn cassius_view() -> LanguageView {
    LanguageView {
        name: "Cassius",
        regions: seq![comment_view(seq![47u8, 47u8], seq![10u8], false, false), comment_view(seq![47u8, 42u8], seq![42u8, 47u8], false, false), string_view(seq![34u8], seq![34u8], true), string_view(seq![39u8], seq![39u8], true)],
        interest_bytes: seq![10u8, 34u8, 39u8, 47u8],
        default_mode: DefaultMode::Code,
        structured_format: StructuredFormat::Text,
        leading_doc_prefixes: seq![],
    }
}

/// Cassius (// ... newline; /* ... */; " ... "; ' ... ').
fn define_cassius() -> (l: LanguageDef)
    ensures
        l@ == cassius_view(),
{
    let mut regions: Vec<Region> = Vec::new();
    regions.push(comment_region(vec![47u8, 47u8], vec![10u8], false, false));
    regions.push(comment_region(vec![47u8, 42u8], vec![42u8, 47u8], false, false));
    regions.push(string_region(vec![34u8], vec![34u8], true));
    regions.push(string_region(vec![39u8], vec![39u8], true));
    let mut prefixes: Vec<Vec<u8>> = Vec::new();
    let l = LanguageDef {
        name: "Cassius",
        regions,
        interest_bytes: vec![10u8, 34u8, 39u8, 47u8],
        default_mode: DefaultMode::Code,
        structured_format: StructuredFormat::Text,
        leading_doc_prefixes: prefixes,
    };
    assert(l@ =~~= cassius_view());
    l
}

/// Ceylon.
pub open spec fn ceylon_view() -> LanguageView {
    LanguageView {
        name: "Ceylon",
        regions: seq![string_view(seq![34u8, 34u8, 34u8], seq![34u8, 34u8, 34u8], true), comment_view(seq![47u8, 47u8], seq![10u8], false, false), comment_view(seq![47u8, 42u8], seq![42u8, 47u8], false, false), string_view(seq![34u8], seq![34u8], true)],
        interest_bytes: seq![10u8, 34u8, 47u8],
        default_mode: DefaultMode::Code,
        structured_format: StructuredFormat::Text,
        leading_doc_prefixes: seq![],
    }
}

/// Ceylon (""" ... """; // ... newline; /* ... */; " ... ").
fn define_ceylon() -> (l: LanguageDef)
    ensures
        l@ == ceylon_view(),
{
    let mut regions: Vec<Region> = Vec::new();
    regions.push(string_region(vec![34u8, 34u8, 34u8], vec![34u8, 34u8, 34u8], true));
    regions.push(comment_region(vec![47u8, 47u8], vec![10u8], false, false));
    regions.push(comment_region(vec![47u8, 42u8], vec![42u8, 47u8], false, false));
    regions.push(string_region(vec![34u8], vec![34u8], true));
    let mut prefixes: Vec<Vec<u8>> = Vec::new();
    let l = LanguageDef {
        name: "Ceylon",
        regions,
        interest_bytes: vec![10u8, 34u8, 47u8],
        default_mode: DefaultMode::Code,
        structured_format: StructuredFormat::Text,
        leading_doc_prefixes: prefixes,
    };
    assert(l@ =~~= ceylon_view());
    l
}

/// Clojure.
pub open spec fn clojure_view() -> LanguageView {
    LanguageView {
        name: "Clojure",
        regions: seq![comment_view(seq![59u8], seq![10u8], false, false), string_view(seq![34u8], seq![34u8], true)],
        interest_bytes: seq![10u8, 34u8, 59u8],
        default_mode: DefaultMode::Code,
        structured_format: StructuredFormat::Text,
        leading_doc_prefixes: seq![],
    }
}

/// Clojure (; ... newline; " ... ").
fn define_clojure() -> (l: LanguageDef)
    ensures
        l@ == clojure_view(),
{
    let mut regions: Vec<Region> = Vec::new();
    regions.push(comment_region(vec![59u8], vec![10u8], false, false));
    regions.push(string_region(vec![34u8], vec![34u8], true));
    let mut prefixes: Vec<Vec<u8>> = Vec::new();
    let l = LanguageDef {
        name: "Clojure",
        regions,
        interest_bytes: vec![10u8, 34u8, 59u8],
        default_mode: DefaultMode::Code,
        structured_format: StructuredFormat::Text,
        leading_doc_prefixes: prefixes,
    };
    assert(l@ =~~= clojure_view());
    l
}

/// ClojureC.
pub open spec fn clojurec_view() -> LanguageView {
    LanguageView {
        name: "ClojureC",
        regions: seq![comment_view(seq![59u8], seq![10u8], false, false), string_view(seq![34u8], seq![34u8], true)],
        interest_bytes: seq![10u8, 34u8, 59u8],
        default_mode: DefaultMode::Code,
        structured_format: StructuredFormat::Text,
        leading_doc_prefixes: seq![],
    }
}

/// ClojureC (; ... newline; " ... ").
fn define_clojurec() -> (l: LanguageDef)
    ensures
        l@ == clojurec_view(),
{
    let mut regions: Vec<Region> = Vec::new();
    regions.push(comment_region(vec![59u8], vec![10u8], false, false));
    regions.push(string_region(vec![34u8], vec![34u8], true));
    let mut prefixes: Vec<Vec<u8>> = Vec::new();
    let l = LanguageDef {
        name: "ClojureC",
        regions,
        interest_bytes: vec![10u8, 34u8, 59u8],
        default_mode: DefaultMode::Code,
        structured_format: StructuredFormat::Text,
        leading_doc_prefixes: prefixes,
    };
    assert(l@ =~~= clojurec_view());
    l
}

/// ClojureScript.
pub open spec fn clojurescript_view() -> LanguageView {
    LanguageView {
        name: "ClojureScript",
        regions: seq![comment_view(seq![59u8], seq![10u8], false, false), string_view(seq![34u8], seq![34u8], true)],
        interest_bytes: seq![10u8, 34u8, 59u8],
        default_mode: DefaultMode::Code,
        structured_format: StructuredFormat::Text,
        leading_doc_prefixes: seq![],
    }
}

/// ClojureScript (; ... newline; " ... ").
fn define_clojurescript() -> (l: LanguageDef)
    ensures
        l@ == clojurescript_view(),
{
    let mut regions: Vec<Region> = Vec::new();
    regions.push(comment_region(vec![59u8], vec![10u8], false, false));
    regions.push(string_region(vec![34u8], vec![34u8], true));
    let mut prefixes: Vec<Vec<u8>> = Vec::new();
    let l = LanguageDef {
        name: "ClojureScript",
        regions,
        interest_bytes: vec![10u8, 34u8, 59u8],
        default_mode: DefaultMode::Code,
        structured_format: StructuredFormat::Text,
        leading_doc_prefixes: prefixes,
    };
    assert(l@ =~~= clojurescript_view());
    l
}

/// CodeQL.
pub open spec fn codeql_view() -> LanguageView {
    LanguageView {
        name: "CodeQL",
        regions: seq![comment_view(seq![47u8, 47u8], seq![10u8], false, false), comment_view(seq![47u8, 42u8], seq![42u8, 47u8], false, false), string_view(seq![34u8], seq![34u8], true)],
        interest_bytes: seq![10u8, 34u8, 47u8],
        default_mode: DefaultMode::Code,
        structured_format: StructuredFormat::Text,
        leading_doc_prefixes: seq![],
    }
}

/// CodeQL (// ... newline; /* ... */; " ... ").
fn define_codeql() -> (l: LanguageDef)
    ensures
        l@ == codeql_view(),
{
    let mut regions: Vec<Region> = Vec::new();
    regions.push(comment_region(vec![47u8, 47u8], vec![10u8], false, false));
    regions.push(comment_region(vec![47u8, 42u8], vec![42u8, 47u8], false, false));
    regions.push(string_region(vec![34u8], vec![34u8], true));
    let mut prefixes: Vec<Vec<u8>> = Vec::new();
    let l = LanguageDef {
        name: "CodeQL",
        regions,
        interest_bytes: vec![10u8, 34u8, 47u8],
        default_mode: DefaultMode::Code,
        structured_format: StructuredFormat::Text,
        leading_doc_prefixes: prefixes,
    };
    assert(l@ =~~= codeql_view());
    l
}

/// CoffeeScript.
pub open spec fn coffeescript_view() -> LanguageView {
    LanguageView {
        name: "CoffeeScript",
        regions: seq![comment_view(seq![35u8, 35u8, 35u8], seq![35u8, 35u8, 35u8], false, false), comment_view(seq![35u8], seq![10u8], false, false), string_view(seq![34u8], seq![34u8], true), string_view(seq![39u8], seq![39u8], true)],
        interest_bytes: seq![10u8, 34u8, 35u8, 39u8],
        default_mode: DefaultMode::Code,
        structured_format: StructuredFormat::Text,
        leading_doc_prefixes: seq![],
    }
}

/// CoffeeScript (### ... ###; # ... newline; " ... "; ' ... ').
fn define_coffeescript() -> (l: LanguageDef)
    ensures
        l@ == coffeescript_view(),
{
    let mut regions: Vec<Region> = Vec::new();
    regions.push(comment_region(vec![35u8, 35u8, 35u8], vec![35u8, 35u8, 35u8], false, false));
    regions.push(comment_region(vec![35u8], vec![10u8], false, false));
    regions.push(string_region(vec![34u8], vec![34u8], true));
    regions.push(string_region(vec![39u8], vec![39u8], true));
    let mut prefixes: Vec<Vec<u8>> = Vec::new();
    let l = LanguageDef {
        name: "CoffeeScript",
        regions,
        interest_bytes: vec![10u8, 34u8, 35u8, 39u8],
        default_mode: DefaultMode::Code,
        structured_format: StructuredFormat::Text,
        leading_doc_prefixes: prefixes,
    };
    assert(l@ =~~= coffeescript_view());
    l
}

/// Cogent.
pub open spec fn cogent_view() -> LanguageView {
    LanguageView {
        name: "Cogent",
        regions: seq![comment_view(seq![45u8, 45u8], seq![10u8], false, false)],
        interest_bytes: seq![10u8, 45u8],
        default_mode: DefaultMode::Code,
        structured_format: StructuredFormat::Text,
        leading_doc_prefixes: seq![],
    }
}

/// Cogent (-- ... newline).
fn define_cogent() -> (l: LanguageDef)
    ensures
        l@ == cogent_view(),
{
    let mut regions: Vec<Region> = Vec::new();
    regions.push(comment_region(vec![45u8, 45u8], vec![10u8], false, false));
    let mut prefixes: Vec<Vec<u8>> = Vec::new();
    let l = LanguageDef {
        name: "Cogent",
        regions,
        interest_bytes: vec![10u8, 45u8],
        default_mode: DefaultMode::Code,
        structured_format: StructuredFormat::Text,
        leading_doc_prefixes: prefixes,
    };
    assert(l@ =~~= cogent_view());
    l
}

/// ColdFusion.
pub open spec fn coldfusion_view() -> LanguageView {
    LanguageView {
        name: "ColdFusion",
        regions: seq![comment_view(seq![60u8, 33u8, 45u8, 45u8, 45u8], seq![45u8, 45u8, 45u8, 62u8], false, false), string_view(seq![34u8], seq![34u8], true), string_view(seq![39u8], seq![39u8], true)],
        interest_bytes: seq![10u8, 34u8, 39u8, 60u8],
        default_mode: DefaultMode::Code,
        structured_format: StructuredFormat::Text,
        leading_doc_prefixes: seq![],
    }
}

/// ColdFusion (<!--- ... --->; " ... "; ' ... ').
fn define_coldfusion() -> (l: LanguageDef)
    ensures
        l@ == coldfusion_view(),
{
    let mut regions: Vec<Region> = Vec::new();
    regions.push(comment_region(vec![60u8, 33u8, 45u8, 45u8, 45u8], vec![45u8, 45u8, 45u8, 62u8], false, false));
    regions.push(string_region(vec![34u8], vec![34u8], true));
    regions.push(string_region(vec![39u8], vec![39u8], true));
    let mut prefixes: Vec<Vec<u8>> = Vec::new();
    let l = LanguageDef {
        name: "ColdFusion",
        regions,
        interest_bytes: vec![10u8, 34u8, 39u8, 60u8],
        default_mode: DefaultMode::Code,
        structured_format: StructuredFormat::Text,
        leading_doc_prefixes: prefixes,
    };
    assert(l@ =~~= coldfusion_view());
    l
}

/// ColdFusion CFScript.
pub open spec fn coldfusion_cfscript_view() -> LanguageView {
    LanguageView {
        name: "ColdFusion CFScript",
        regions: seq![comment_view(seq![47u8, 47u8], seq![10u8], false, false), comment_view(seq![47u8, 42u8], seq![42u8, 47u8], false, false), string_view(seq![34u8], seq![34u8], true)],
        interest_bytes: seq![10u8, 34u8, 47u8],
        default_mode: DefaultMode::Code,
        structured_format: StructuredFormat::Text,
        leading_doc_prefixes: seq![],
    }
}

/// ColdFusion CFScript (// ... newline; /* ... */; " ... ").
fn define_coldfusion_cfscript() -> (l: LanguageDef)
    ensures
        l@ == coldfusion_cfscript_view(),
{
    let mut regions: Vec<Region> = Vec::new();
    regions.push(comment_region(vec![47u8, 47u8], vec![10u8], false, false));
    regions.push(comment_region(vec![47u8, 42u8], vec![42u8, 47u8], false, false));
    regions.push(string_region(vec![34u8], vec![34u8], true));
    let mut prefixes: Vec<Vec<u8>> = Vec::new();
    let l = LanguageDef {
        name: "ColdFusion CFScript",
        regions,
        interest_bytes: vec![10u8, 34u8, 47u8],
        default_mode: DefaultMode::Code,
        structured_format: StructuredFormat::Text,
        leading_doc_prefixes: prefixes,
    };
    assert(l@ =~~= coldfusion_cfscript_view());
    l
}

/// Coq.
pub open spec fn coq_view() -> LanguageView {
    LanguageView {
        name: "Coq",
        regions: seq![comment_view(seq![40u8, 42u8], seq![42u8, 41u8], false, false), string_view(seq![34u8], seq![34u8], true)],
        interest_bytes: seq![10u8, 34u8, 40u8],
        default_mode: DefaultMode::Code,
        structured_format: StructuredFormat::Text,
        leading_doc_prefixes: seq![],
    }
}

/// Coq ((* ... *); " ... ").
fn define_coq() -> (l: LanguageDef)
    ensures
        l@ == coq_view(),
{
    let mut regions: Vec<Region> = Vec::new();
    regions.push(comment_region(vec![40u8, 42u8], vec![42u8, 41u8], false, false));
    regions.push(string_region(vec![34u8], vec![34u8], true));
    let mut prefixes: Vec<Vec<u8>> = Vec::new();
    let l = LanguageDef {
        name: "Coq",
        regions,
        interest_bytes: vec![10u8, 34u8, 40u8],
        default_mode: DefaultMode::Code,
        structured_format: StructuredFormat::Text,
        leading_doc_prefixes: prefixes,
    };
    assert(l@ =~~= coq_view());
    l
}

/// Crystal.
pub open spec fn crystal_view() -> LanguageView {
    LanguageView {
        name: "Crystal",
        regions: seq![comment_view(seq![35u8], seq![10u8], false, false), string_view(seq![34u8], seq![34u8], true), string_view(seq![39u8], seq![39u8], true)],
        interest_bytes: seq![10u8, 34u8, 35u8, 39u8],
        default_mode: DefaultMode::Code,
        structured_format: StructuredFormat::Text,
        leading_doc_prefixes: seq![],
    }
}

/// Crystal (# ... newline; " ... "; ' ... ').
fn define_crystal() -> (l: LanguageDef)
    ensures
        l@ == crystal_view(),
{
    let mut regions: Vec<Region> = Vec::new();
    regions.push(comment_region(vec![35u8], vec![10u8], false, false));
    regions.push(string_region(vec![34u8], vec![34u8], true));
    regions.push(string_region(vec![39u8], vec![39u8], true));
    let mut prefixes: Vec<Vec<u8>> = Vec::new();
    let l = LanguageDef {
        name: "Crystal",
        regions,
        interest_bytes: vec![10u8, 34u8, 35u8, 39u8],
        default_mode: DefaultMode::Code,
        structured_format: StructuredFormat::Text,
        leading_doc_prefixes: prefixes,
    };
    assert(l@ =~~= crystal_view());
    l
}

/// D.
pub open spec fn d_view() -> LanguageView {
    LanguageView {
        name: "D",
        regions: seq![comment_view(seq![47u8, 47u8], seq![10u8], false, false), comment_view(seq![47u8, 42u8], seq![42u8, 47u8], false, false), comment_view(seq![47u8, 43u8], seq![43u8, 47u8], true, false), string_view(seq![34u8], seq![34u8], true), string_view(seq![39u8], seq![39u8], true)],
        interest_bytes: seq![10u8, 34u8, 39u8, 47u8],
        default_mode: DefaultMode::Code,
        structured_format: StructuredFormat::Text,
        leading_doc_prefixes: seq![],
    }
}

/// D (// ... newline; /* ... */; /+ ... +/; " ... "; ' ... ').
fn define_d() -> (l: LanguageDef)
    ensures
        l@ == d_view(),
{
    let mut regions: Vec<Region> = Vec::new();
    regions.push(comment_region(vec![47u8, 47u8], vec![10u8], false, false));
    regions.push(comment_region(vec![47u8, 42u8], vec![42u8, 47u8], false, false));
    regions.push(comment_region(vec![47u8, 43u8], vec![43u8, 47u8], true, false));
    regions.push(string_region(vec![34u8], vec![34u8], true));
    regions.push(string_region(vec![39u8], vec![39u8], true));
    let mut prefixes: Vec<Vec<u8>> = Vec::new();
    let l = LanguageDef {
        name: "D",
        regions,
        interest_bytes: vec![10u8, 34u8, 39u8, 47u8],
        default_mode: DefaultMode::Code,
        structured_format: StructuredFormat::Text,
        leading_doc_prefixes: prefixes,
    };
    assert(l@ =~~= d_view());
    l
}

/// DAML.
pub open spec fn daml_view() -> LanguageView {
    LanguageView {
        name: "DAML",
        regions: seq![comment_view(seq![45u8, 45u8, 32u8], seq![10u8], false, false), comment_view(seq![123u8, 45u8], seq![45u8, 125u8], true, false)],
        interest_bytes: seq![10u8, 45u8, 123u8],
        default_mode: DefaultMode::Code,
        structured_format: StructuredFormat::Text,
        leading_doc_prefixes: seq![],
    }
}

/// DAML (--  ... newline; {- ... -}).
fn define_daml() -> (l: LanguageDef)
    ensures
        l@ == daml_view(),
{
    let mut regions: Vec<Region> = Vec::new();
    regions.push(comment_region(vec![45u8, 45u8, 32u8], vec![10u8], false, false));
    regions.push(comment_region(vec![123u8, 45u8], vec![45u8, 125u8], true, false));
    let mut prefixes: Vec<Vec<u8>> = Vec::new();
    let l = LanguageDef {
        name: "DAML",
        regions,
        interest_bytes: vec![10u8, 45u8, 123u8],
        default_mode: DefaultMode::Code,
        structured_format: StructuredFormat::Text,
        leading_doc_prefixes: prefixes,
    };
    assert(l@ =~~= daml_view());
    l
}

/// Dart.
pub open spec fn dart_view() -> LanguageView {
    LanguageView {
        name: "Dart",
        regions: seq![string_view(seq![34u8, 34u8, 34u8], seq![34u8, 34u8, 34u8], true), string_view(seq![39u8, 39u8, 39u8], seq![39u8, 39u8, 39u8], true), comment_view(seq![47u8, 47u8], seq![10u8], false, false), comment_view(seq![47u8, 42u8], seq![42u8, 47u8], false, false), string_view(seq![34u8], seq![34u8], true), string_view(seq![39u8], seq![39u8], true)],
        interest_bytes: seq![10u8, 34u8, 39u8, 47u8],
        default_mode: DefaultMode::Code,
        structured_format: StructuredFormat::Text,
        leading_doc_prefixes: seq![],
    }
}

/// Dart (""" ... """; ''' ... '''; // ... newline; /* ... */; " ... "; ' ... ').
fn define_dart() -> (l: LanguageDef)
    ensures
        l@ == dart_view(),
{
    let mut regions: Vec<Region> = Vec::new();
    regions.push(string_region(vec![34u8, 34u8, 34u8], vec![34u8, 34u8, 34u8], true));
    regions.push(string_region(vec![39u8, 39u8, 39u8], vec![39u8, 39u8, 39u8], true));
    regions.push(comment_region(vec![47u8, 47u8], vec![10u8], false, false));
    regions.push(comment_region(vec![47u8, 42u8], vec![42u8, 47u8], false, false));
    regions.push(string_region(vec![34u8], vec![34u8], true));
    regions.push(string_region(vec![39u8], vec![39u8], true));
    let mut prefixes: Vec<Vec<u8>> = Vec::new();
    let l = LanguageDef {
        name: "Dart",
        regions,
        interest_bytes: vec![10u8, 34u8, 39u8, 47u8],
        default_mode: DefaultMode::Code,
        structured_format: StructuredFormat::Text,
        leading_doc_prefixes: prefixes,
    };
    assert(l@ =~~= dart_view());
    l
}

/// Device Tree.
pub open spec fn device_tree_view() -> LanguageView {
    LanguageView {
        name: "Device Tree",
        regions: seq![comment_view(seq![47u8, 47u8], seq![10u8], false, false), comment_view(seq![47u8, 42u8], seq![42u8, 47u8], false, false), string_view(seq![34u8], seq![34u8], true)],
        interest_bytes: seq![10u8, 34u8, 47u8],
        default_mode: DefaultMode::Code,
        structured_format: StructuredFormat::Text,
        leading_doc_prefixes: seq![],
    }
}

/// Device Tree (// ... newline; /* ... */; " ... ").
fn define_device_tree() -> (l: LanguageDef)
    ensures
        l@ == device_tree_view(),
{
    let mut regions: Vec<Region> = Vec::new();
    regions.push(comment_region(vec![47u8, 47u8], vec![10u8], false, false));
    regions.push(comment_region(vec![47u8, 42u8], vec![42u8, 47u8], false, false));
    regions.push(string_region(vec![34u8], vec![34u8], true));
    let mut prefixes: Vec<Vec<u8>> = Vec::new();
    let l = LanguageDef {
        name: "Device Tree",
        regions,
        interest_bytes: vec![10u8, 34u8, 47u8],
        default_mode: DefaultMode::Code,
        structured_format: StructuredFormat::Text,
        leading_doc_prefixes: prefixes,
    };
    assert(l@ =~~= device_tree_view());
    l
}

/// Dhall.
pub open spec fn dhall_view() -> LanguageView {
    LanguageView {
        name: "Dhall",
        regions: seq![comment_view(seq![45u8, 45u8], seq![10u8], false, false), comment_view(seq![123u8, 45u8], seq![45u8, 125u8], true, false), string_view(seq![39u8, 39u8], seq![39u8, 39u8], true), string_view(seq![34u8], seq![34u8], true)],
        interest_bytes: seq![10u8, 34u8, 39u8, 45u8, 123u8],
        default_mode: DefaultMode::Code,
        structured_format: StructuredFormat::Text,
        leading_doc_prefixes: seq![],
    }
}

/// Dhall (-- ... newline; {- ... -}; '' ... ''; " ... ").
fn define_dhall() -> (l: LanguageDef)
    ensures
        l@ == dhall_view(),
{
    let mut regions: Vec<Region> = Vec::new();
    regions.push(comment_region(vec![45u8, 45u8], vec![10u8], false, false));
    regions.push(comment_region(vec![123u8, 45u8], vec![45u8, 125u8], true, false));
    regions.push(string_region(vec![39u8, 39u8], vec![39u8, 39u8], true));
    regions.push(string_region(vec![34u8], vec![34u8], true));
    let mut prefixes: Vec<Vec<u8>> = Vec::new();
    let l = LanguageDef {
        name: "Dhall",
        regions,
        interest_bytes: vec![10u8, 34u8, 39u8, 45u8, 123u8],
        default_mode: DefaultMode::Code,
        structured_format: StructuredFormat::Text,
        leading_doc_prefixes: prefixes,
    };
    assert(l@ =~~= dhall_view());
    l
}

/// Dockerfile.
pub open spec fn dockerfile_view() -> LanguageView {
    LanguageView {
        name: "Dockerfile",
        regions: seq![comment_view(seq![35u8], seq![10u8], false, false), string_view(seq![34u8], seq![34u8], true), string_view(seq![39u8], seq![39u8], true)],
        interest_bytes: seq![10u8, 34u8, 35u8, 39u8],
        default_mode: DefaultMode::Code,
        structured_format: StructuredFormat::Text,
        leading_doc_prefixes: seq![],
    }
}

/// Dockerfile (# ... newline; " ... "; ' ... ').
fn define_dockerfile() -> (l: LanguageDef)
    ensures
        l@ == dockerfile_view(),
{
    let mut regions: Vec<Region> = Vec::new();
    regions.push(comment_region(vec![35u8], vec![10u8], false, false));
    regions.push(string_region(vec![34u8], vec![34u8], true));
    regions.push(string_region(vec![39u8], vec![39u8], true));
    let mut prefixes: Vec<Vec<u8>> = Vec::new();
    let l = LanguageDef {
        name: "Dockerfile",
        regions,
        interest_bytes: vec![10u8, 34u8, 35u8, 39u8],
        default_mode: DefaultMode::Code,
        structured_format: StructuredFormat::Text,
        leading_doc_prefixes: prefixes,
    };
    assert(l@ =~~= dockerfile_view());
    l
}

/// Dream Maker.
pub open spec fn dream_maker_view() -> LanguageView {
    LanguageView {
        name: "Dream Maker",
        regions: seq![comment_view(seq![47u8, 47u8], seq![10u8], false, false), comment_view(seq![47u8, 42u8], seq![42u8, 47u8], true, false), string_view(seq![123u8, 34u8], seq![34u8, 125u8], true), string_view(seq![34u8], seq![34u8], true), string_view(seq![39u8], seq![39u8], true)],
        interest_bytes: seq![10u8, 34u8, 39u8, 47u8, 123u8],
        default_mode: DefaultMode::Code,
        structured_format: StructuredFormat::Text,
        leading_doc_prefixes: seq![],
    }
}

/// Dream Maker (// ... newline; /* ... */; {" ... "}; " ... "; ' ... ').
fn define_dream_maker() -> (l: LanguageDef)
    ensures
        l@ == dream_maker_view(),
{
    let mut regions: Vec<Region> = Vec::new();
    regions.push(comment_region(vec![47u8, 47u8], vec![10u8], false, false));
    regions.push(comment_region(vec![47u8, 42u8], vec![42u8, 47u8], true, false));
    regions.push(string_region(vec![123u8, 34u8], vec![34u8, 125u8], true));
    regions.push(string_region(vec![34u8], vec![34u8], true));
    regions.push(string_region(vec![39u8], vec![39u8], true));
    let mut prefixes: Vec<Vec<u8>> = Vec::new();
    let l = LanguageDef {
        name: "Dream Maker",
        regions,
        interest_bytes: vec![10u8, 34u8, 39u8, 47u8, 123u8],
        default_mode: DefaultMode::Code,
        structured_format: StructuredFormat::Text,
        leading_doc_prefixes: prefixes,
    };
    assert(l@ =~~= dream_maker_view());
    l
}

/// Dust.js.
pub open spec fn dust_js_view() -> LanguageView {
    LanguageView {
        name: "Dust.js",
        regions: seq![comment_view(seq![123u8, 33u8], seq![33u8, 125u8], false, false)],
        interest_bytes: seq![10u8, 123u8],
        default_mode: DefaultMode::Code,
        structured_format: StructuredFormat::Text,
        leading_doc_prefixes: seq![],
    }
}

/// Dust.js ({! ... !}).
fn define_dust_js() -> (l: LanguageDef)
    ensures
        l@ == dust_js_view(),
{
    let mut regions: Vec<Region> = Vec::new();
    regions.push(comment_region(vec![123u8, 33u8], vec![33u8, 125u8], false, false));
    let mut prefixes: Vec<Vec<u8>> = Vec::new();
    let l = LanguageDef {
        name: "Dust.js",
        regions,
        interest_bytes: vec![10u8, 123u8],
        default_mode: DefaultMode::Code,
        structured_format: StructuredFormat::Text,
        leading_doc_prefixes: prefixes,
    };
    assert(l@ =~~= dust_js_view());
    l
}

/// Edn.
pub open spec fn edn_view() -> LanguageView {
    LanguageView {
        name: "Edn",
        regions: seq![comment_view(seq![59u8], seq![10u8], false, false)],
        interest_bytes: seq![10u8, 59u8],
        default_mode: DefaultMode::Code,
        structured_format: StructuredFormat::Text,
        leading_doc_prefixes: seq![],
    }
}

/// Edn (; ... newline).
fn define_edn() -> (l: LanguageDef)
    ensures
        l@ == edn_view(),
{
    let mut regions: Vec<Region> = Vec::new();
    regions.push(comment_region(vec![59u8], vec![10u8], false, false));
    let mut prefixes: Vec<Vec<u8>> = Vec::new();
    let l = LanguageDef {
        name: "Edn",
        regions,
        interest_bytes: vec![10u8, 59u8],
        default_mode: DefaultMode::Code,
        structured_format: StructuredFormat::Text,
        leading_doc_prefixes: prefixes,
    };
    assert(l@ =~~= edn_view());
    l
}

/// Elixir.
pub open spec fn elixir_view() -> LanguageView {
    LanguageView {
        name: "Elixir",
        regions: seq![string_view(seq![34u8, 34u8, 34u8], seq![34u8, 34u8, 34u8], true), string_view(seq![39u8, 39u8, 39u8], seq![39u8, 39u8, 39u8], true), comment_view(seq![35u8], seq![10u8], false, false), string_view(seq![34u8], seq![34u8], true), string_view(seq![39u8], seq![39u8], true)],
        interest_bytes: seq![10u8, 34u8, 35u8, 39u8],
        default_mode: DefaultMode::Code,
        structured_format: StructuredFormat::Text,
        leading_doc_prefixes: seq![],
    }
}

/// Elixir (""" ... """; ''' ... '''; # ... newline; " ... "; ' ... ').
fn define_elixir() -> (l: LanguageDef)
    ensures
        l@ == elixir_view(),
{
    let mut regions: Vec<Region> = Vec::new();
    regions.push(string_region(vec![34u8, 34u8, 34u8], vec![34u8, 34u8, 34u8], true));
    regions.push(string_region(vec![39u8, 39u8, 39u8], vec![39u8, 39u8, 39u8], true));
    regions.push(comment_region(vec![35u8], vec![10u8], false, false));
    regions.push(string_region(vec![34u8], vec![34u8], true));
    regions.push(string_region(vec![39u8], vec![39u8], true));
    let mut prefixes: Vec<Vec<u8>> = Vec::new();
    let l = LanguageDef {
        name: "Elixir",
        regions,
        interest_bytes: vec![10u8, 34u8, 35u8, 39u8],
        default_mode: DefaultMode::Code,
        structured_format: StructuredFormat::Text,
        leading_doc_prefixes: prefixes,
    };
    assert(l@ =~~= elixir_view());
    l
}

/// Elm.
pub open spec fn elm_view() -> LanguageView {
    LanguageView {
        name: "Elm",
        regions: seq![comment_view(seq![45u8, 45u8], seq![10u8], false, false), comment_view(seq![123u8, 45u8], seq![45u8, 125u8], true, false)],
        interest_bytes: seq![10u8, 45u8, 123u8],
        default_mode: DefaultMode::Code,
        structured_format: StructuredFormat::Text,
        leading_doc_prefixes: seq![],
    }
}

/// Elm (-- ... newline; {- ... -}).
fn define_elm() -> (l: LanguageDef)
    ensures
        l@ == elm_view(),
{
    let mut regions: Vec<Region> = Vec::new();
    regions.push(comment_region(vec![45u8, 45u8], vec![10u8], false, false));
    regions.push(comment_region(vec![123u8, 45u8], vec![45u8, 125u8], true, false));
    let mut prefixes: Vec<Vec<u8>> = Vec::new();
    let l = LanguageDef {
        name: "Elm",
        regions,
        interest_bytes: vec![10u8, 45u8, 123u8],
        default_mode: DefaultMode::Code,
        structured_format: StructuredFormat::Text,
        leading_doc_prefixes: prefixes,
    };
    assert(l@ =~~= elm_view());
    l
}

/// Elvish.
pub open spec fn elvish_view() -> LanguageView {
    LanguageView {
        name: "Elvish",
        regions: seq![comment_view(seq![35u8], seq![10u8], false, false), string_view(seq![34u8], seq![34u8], true), string_view(seq![39u8], seq![39u8], true)],
        interest_bytes: seq![10u8, 34u8, 35u8, 39u8],
        default_mode: DefaultMode::Code,
        structured_format: StructuredFormat::Text,
        leading_doc_prefixes: seq![],
    }
}

/// Elvish (# ... newline; " ... "; ' ... ').
fn define_elvish() -> (l: LanguageDef)
    ensures
        l@ == elvish_view(),
{
    let mut regions: Vec<Region> = Vec::new();
    regions.push(comment_region(vec![35u8], vec![10u8], false, false));
    regions.push(string_region(vec![34u8], vec![34u8], true));
    regions.push(string_region(vec![39u8], vec![39u8], true));
    let mut prefixes: Vec<Vec<u8>> = Vec::new();
    let l = LanguageDef {
        name: "Elvish",
        regions,
        interest_bytes: vec![10u8, 34u8, 35u8, 39u8],
        default_mode: DefaultMode::Code,
        structured_format: StructuredFormat::Text,
        leading_doc_prefixes: prefixes,
    };
    assert(l@ =~~= elvish_view());
    l
}

/// Emacs Dev Env.
pub open spec fn emacs_dev_env_view() -> LanguageView {
    LanguageView {
        name: "Emacs Dev Env",
        regions: seq![comment_view(seq![59u8], seq![10u8], false, false)],
        interest_bytes: seq![10u8, 59u8],
        default_mode: DefaultMode::Code,
        structured_format: StructuredFormat::Text,
        leading_doc_prefixes: seq![],
    }
}

/// Emacs Dev Env (; ... newline).
fn define_emacs_dev_env() -> (l: LanguageDef)
    ensures
        l@ == emacs_dev_env_view(),
{
    let mut regions: Vec<Region> = Vec::new();
    regions.push(comment_region(vec![59u8], vec![10u8], false, false));
    let mut prefixes: Vec<Vec<u8>> = Vec::new();
    let l = LanguageDef {
        name: "Emacs Dev Env",
        regions,
        interest_bytes: vec![10u8, 59u8],
        default_mode: DefaultMode::Code,
        structured_format: StructuredFormat::Text,
        leading_doc_prefixes: prefixes,
    };
    assert(l@ =~~= emacs_dev_env_view());
    l
}

/// Emacs Lisp.
pub open spec fn emacs_lisp_view() -> LanguageView {
    LanguageView {
        name: "Emacs Lisp",
        regions: seq![comment_view(seq![59u8], seq![10u8], false, false)],
        interest_bytes: seq![10u8, 59u8],
        default_mode: DefaultMode::Code,
        structured_format: StructuredFormat::Text,
        leading_doc_prefixes: seq![],
    }
}

/// Emacs Lisp (; ... newline).
fn define_emacs_lisp() -> (l: LanguageDef)
    ensures
        l@ == emacs_lisp_view(),
{
    let mut regions: Vec<Region> = Vec::new();
    regions.push(comment_region(vec![59u8], vec![10u8], false, false));
    let mut prefixes: Vec<Vec<u8>> = Vec::new();
    let l = LanguageDef {
        name: "Emacs Lisp",
        regions,
        interest_bytes: vec![10u8, 59u8],
        default_mode: DefaultMode::Code,
        structured_format: StructuredFormat::Text,
        leading_doc_prefixes: prefixes,
    };
    assert(l@ =~~= emacs_lisp_view());
    l
}

/// Emojicode.
pub open spec fn emojicode_view() -> LanguageView {
    LanguageView {
        name: "Emojicode",
        regions: seq![comment_view(seq![240u8, 159u8, 146u8, 173u8, 240u8, 159u8, 148u8, 156u8], seq![240u8, 159u8, 148u8, 154u8, 240u8, 159u8, 146u8, 173u8], false, false), string_view(seq![226u8, 157u8, 140u8, 240u8, 159u8, 148u8, 164u8], seq![226u8, 157u8, 140u8, 240u8, 159u8, 148u8, 164u8], true), comment_view(seq![240u8, 159u8, 146u8, 173u8], seq![10u8], false, false), comment_view(seq![240u8, 159u8, 147u8, 151u8], seq![240u8, 159u8, 147u8, 151u8], false, false), comment_view(seq![240u8, 159u8, 147u8, 152u8], seq![240u8, 159u8, 147u8, 152u8], false, false)],
        interest_bytes: seq![10u8, 226u8, 240u8],
        default_mode: DefaultMode::Code,
        structured_format: StructuredFormat::Text,
        leading_doc_prefixes: seq![],
    }
}

/// Emojicode (💭🔜 ... 🔚💭; ❌🔤 ... ❌🔤; 💭 ... newline; 📗 ... 📗; 📘 ... 📘).
fn define_emojicode() -> (l: LanguageDef)
    ensures
        l@ == emojicode_view(),
{
    let mut regions: Vec<Region> = Vec::new();
    regions.push(comment_region(vec![240u8, 159u8, 146u8, 173u8, 240u8, 159u8, 148u8, 156u8], vec![240u8, 159u8, 148u8, 154u8, 240u8, 159u8, 146u8, 173u8], false, false));
    regions.push(string_region(vec![226u8, 157u8, 140u8, 240u8, 159u8, 148u8, 164u8], vec![226u8, 157u8, 140u8, 240u8, 159u8, 148u8, 164u8], true));
    regions.push(comment_region(vec![240u8, 159u8, 146u8, 173u8], vec![10u8], false, false));
    regions.push(comment_region(vec![240u8, 159u8, 147u8, 151u8], vec![240u8, 159u8, 147u8, 151u8], false, false));
    regions.push(comment_region(vec![240u8, 159u8, 147u8, 152u8], vec![240u8, 159u8, 147u8, 152u8], false, false));
    let mut prefixes: Vec<Vec<u8>> = Vec::new();
    let l = LanguageDef {
        name: "Emojicode",
        regions,
        interest_bytes: vec![10u8, 226u8, 240u8],
        default_mode: DefaultMode::Code,
        structured_format: StructuredFormat::Text,
        leading_doc_prefixes: prefixes,
    };
    assert(l@ =~~= emojicode_view());
    l
}

/// Erlang.
pub open spec fn erlang_view() -> LanguageView {
    LanguageView {
        name: "Erlang",
        regions: seq![comment_view(seq![37u8], seq![10u8], false, false)],
        interest_bytes: seq![10u8, 37u8],
        default_mode: DefaultMode::Code,
        structured_format: StructuredFormat::Text,
        leading_doc_prefixes: seq![],
    }
}

/// Erlang (% ... newline).
fn define_erlang() -> (l: LanguageDef)
    ensures
        l@ == erlang_view(),
{
    let mut regions: Vec<Region> = Vec::new();
    regions.push(comment_region(vec![37u8], vec![10u8], false, false));
    let mut prefixes: Vec<Vec<u8>> = Vec::new();
    let l = LanguageDef {
        name: "Erlang",
        regions,
        interest_bytes: vec![10u8, 37u8],
        default_mode: DefaultMode::Code,
        structured_format: StructuredFormat::Text,
        leading_doc_prefixes: prefixes,
    };
    assert(l@ =~~= erlang_view());
    l
}

/// F#.
pub open spec fn fsharp_view() -> LanguageView {
    LanguageView {
        name: "F#",
        regions: seq![comment_view(seq![47u8, 47u8], seq![10u8], false, false), comment_view(seq![40u8, 42u8], seq![42u8, 41u8], false, false), string_view(seq![64u8, 34u8], seq![34u8], false), string_view(seq![34u8], seq![34u8], true)],
        interest_bytes: seq![10u8, 34u8, 40u8, 47u8, 64u8],
        default_mode: DefaultMode::Code,
        structured_format: StructuredFormat::Text,
        leading_doc_prefixes: seq![],
    }
}

/// F# (// ... newline; (* ... *); @" ... "; " ... ").
fn define_fsharp() -> (l: LanguageDef)
    ensures
        l@ == fsharp_view(),
{
    let mut regions: Vec<Region> = Vec::new();
    regions.push(comment_region(vec![47u8, 47u8], vec![10u8], false, false));
    regions.push(comment_region(vec![40u8, 42u8], vec![42u8, 41u8], false, false));
    regions.push(string_region(vec![64u8, 34u8], vec![34u8], false));
    regions.push(string_region(vec![34u8], vec![34u8], true));
    let mut prefixes: Vec<Vec<u8>> = Vec::new();
    let l = LanguageDef {
        name: "F#",
        regions,
        interest_bytes: vec![10u8, 34u8, 40u8, 47u8, 64u8],
        default_mode: DefaultMode::Code,
        structured_format: StructuredFormat::Text,
        leading_doc_prefixes: prefixes,
    };
    assert(l@ =~~= fsharp_view());
    l
}

/// F*.
pub open spec fn f_view() -> LanguageView {
    LanguageView {
        name: "F*",
        regions: seq![comment_view(seq![47u8, 47u8], seq![10u8], false, false), comment_view(seq![40u8, 42u8], seq![42u8, 41u8], false, false), string_view(seq![34u8], seq![34u8], true)],
        interest_bytes: seq![10u8, 34u8, 40u8, 47u8],
        default_mode: DefaultMode::Code,
        structured_format: StructuredFormat::Text,
        leading_doc_prefixes: seq![],
    }
}

/// F* (// ... newline; (* ... *); " ... ").
fn define_f() -> (l: LanguageDef)
    ensures
        l@ == f_view(),
{
    let mut regions: Vec<Region> = Vec::new();
    regions.push(comment_region(vec![47u8, 47u8], vec![10u8], false, false));
    regions.push(comment_region(vec![40u8, 42u8], vec![42u8, 41u8], false, false));
    regions.push(string_region(vec![34u8], vec![34u8], true));
    let mut prefixes: Vec<Vec<u8>> = Vec::new();
    let l = LanguageDef {
        name: "F*",
        regions,
        interest_bytes: vec![10u8, 34u8, 40u8, 47u8],
        default_mode: DefaultMode::Code,
        structured_format: StructuredFormat::Text,
        leading_doc_prefixes: prefixes,
    };
    assert(l@ =~~= f_view());
    l
}

/// FEN.
pub open spec fn fen_view() -> LanguageView {
    LanguageView {
        name: "FEN",
        regions: seq![],
        interest_bytes: seq![10u8],
        default_mode: DefaultMode::Code,
        structured_format: StructuredFormat::Text,
        leading_doc_prefixes: seq![],
    }
}

/// FEN (no regions).
fn define_fen() -> (l: LanguageDef)
    ensures
        l@ == fen_view(),
{
    let mut regions: Vec<Region> = Vec::new();
    let mut prefixes: Vec<Vec<u8>> = Vec::new();
    let l = LanguageDef {
        name: "FEN",
        regions,
        interest_bytes: vec![10u8],
        default_mode: DefaultMode::Code,
        structured_format: StructuredFormat::Text,
        leading_doc_prefixes: prefixes,
    };
    assert(l@ =~~= fen_view());
    l
}

/// FORTRAN Legacy.
pub open spec fn fortran_legacy_view() -> LanguageView {
    LanguageView {
        name: "FORTRAN Legacy",
        regions: seq![comment_view(seq![99u8], seq![10u8], false, false), comment_view(seq![67u8], seq![10u8], false, false), comment_view(seq![33u8], seq![10u8], false, false), comment_view(seq![42u8], seq![10u8], false, false), string_view(seq![34u8], seq![34u8], true), string_view(seq![39u8], seq![39u8], true)],
        interest_bytes: seq![10u8, 33u8, 34u8, 39u8, 42u8, 67u8, 99u8],
        default_mode: DefaultMode::Code,
        structured_format: StructuredFormat::Text,
        leading_doc_prefixes: seq![],
    }
}

/// FORTRAN Legacy (c ... newline; C ... newline; ! ... newline; * ... newline; " ... "; ' ... ').
fn define_fortran_legacy() -> (l: LanguageDef)
    ensures
        l@ == fortran_legacy_view(),
{
    let mut regions: Vec<Region> = Vec::new();
    regions.push(comment_region(vec![99u8], vec![10u8], false, false));
    regions.push(comment_region(vec![67u8], vec![10u8], false, false));
    regions.push(comment_region(vec![33u8], vec![10u8], false, false));
    regions.push(comment_region(vec![42u8], vec![10u8], false, false));
    regions.push(string_region(vec![34u8], vec![34u8], true));
    regions.push(string_region(vec![39u8], vec![39u8], true));
    let mut prefixes: Vec<Vec<u8>> = Vec::new();
    let l = LanguageDef {
        name: "FORTRAN Legacy",
        regions,
        interest_bytes: vec![10u8, 33u8, 34u8, 39u8, 42u8, 67u8, 99u8],
        default_mode: DefaultMode::Code,
        structured_format: StructuredFormat::Text,
        leading_doc_prefixes: prefixes,
    };
    assert(l@ =~~= fortran_legacy_view());
    l
}

/// FORTRAN Modern.
pub open spec fn fortran_modern_view() -> LanguageView {
    LanguageView {
        name: "FORTRAN Modern",
        regions: seq![comment_view(seq![33u8], seq![10u8], false, false), string_view(seq![34u8], seq![34u8], true)],
        interest_bytes: seq![10u8, 33u8, 34u8],
        default_mode: DefaultMode::Code,
        structured_format: StructuredFormat::Text,
        leading_doc_prefixes: seq![],
    }
}

/// FORTRAN Modern (! ... newline; " ... ").
fn define_fortran_modern() -> (l: LanguageDef)
    ensures
        l@ == fortran_modern_view(),
{
    let mut regions: Vec<Region> = Vec::new();
    regions.push(comment_region(vec![33u8], vec![10u8], false, false));
    regions.push(string_region(vec![34u8], vec![34u8], true));
    let mut prefixes: Vec<Vec<u8>> = Vec::new();
    let l = LanguageDef {
        name: "FORTRAN Modern",
        regions,
        interest_bytes: vec![10u8, 33u8, 34u8],
        default_mode: DefaultMode::Code,
        structured_format: StructuredFormat::Text,
        leading_doc_prefixes: prefixes,
    };
    assert(l@ =~~= fortran_modern_view());
    l
}

/// Fish.
pub open spec fn fish_view() -> LanguageView {
    LanguageView {
        name: "Fish",
        regions: seq![comment_view(seq![35u8], seq![10u8], false, false), string_view(seq![34u8], seq![34u8], true), string_view(seq![39u8], seq![39u8], true)],
        interest_bytes: seq![10u8, 34u8, 35u8, 39u8],
        default_mode: DefaultMode::Code,
        structured_format: StructuredFormat::Text,
        leading_doc_prefixes: seq![],
    }
}

/// Fish (# ... newline; " ... "; ' ... ').
fn define_fish() -> (l: LanguageDef)
    ensures
        l@ == fish_view(),
{
    let mut regions: Vec<Region> = Vec::new();
    regions.push(comment_region(vec![35u8], vec![10u8], false, false));
    regions.push(string_region(vec![34u8], vec![34u8], true));
    regions.push(string_region(vec![39u8], vec![39u8], true));
    let mut prefixes: Vec<Vec<u8>> = Vec::new();
    let l = LanguageDef {
        name: "Fish",
        regions,
        interest_bytes: vec![10u8, 34u8, 35u8, 39u8],
        default_mode: DefaultMode::Code,
        structured_format: StructuredFormat::Text,
        leading_doc_prefixes: prefixes,
    };
    assert(l@ =~~= fish_view());
    l
}

/// FlatBuffers Schema.
pub open spec fn flatbuffers_schema_view() -> LanguageView {
    LanguageView {
        name: "FlatBuffers Schema",
        regions: seq![comment_view(seq![47u8, 47u8], seq![10u8], false, false), comment_view(seq![47u8, 42u8], seq![42u8, 47u8], false, false), string_view(seq![34u8], seq![34u8], true)],
        interest_bytes: seq![10u8, 34u8, 47u8],
        default_mode: DefaultMode::Code,
        structured_format: StructuredFormat::Text,
        leading_doc_prefixes: seq![],
    }
}

/// FlatBuffers Schema (// ... newline; /* ... */; " ... ").
fn define_flatbuffers_schema() -> (l: LanguageDef)
    ensures
        l@ == flatbuffers_schema_view(),
{
    let mut regions: Vec<Region> = Vec::new();
    regions.push(comment_region(vec![47u8, 47u8], vec![10u8], false, false));
    regions.push(comment_region(vec![47u8, 42u8], vec![42u8, 47u8], false, false));
    regions.push(string_region(vec![34u8], vec![34u8], true));
    let mut prefixes: Vec<Vec<u8>> = Vec::new();
    let l = LanguageDef {
        name: "FlatBuffers Schema",
        regions,
        interest_bytes: vec![10u8, 34u8, 47u8],
        default_mode: DefaultMode::Code,
        structured_format: StructuredFormat::Text,
        leading_doc_prefixes: prefixes,
    };
    assert(l@ =~~= flatbuffers_schema_view());
    l
}

/// Forth.
pub open spec fn forth_view() -> LanguageView {
    LanguageView {
        name: "Forth",
        regions: seq![comment_view(seq![40u8, 32u8], seq![41u8], false, false), comment_view(seq![92u8], seq![10u8], false, false)],
        interest_bytes: seq![10u8, 40u8, 92u8],
        default_mode: DefaultMode::Code,
        structured_format: StructuredFormat::Text,
        leading_doc_prefixes: seq![],
    }
}

/// Forth ((  ... ); \ ... newline).
fn define_forth() -> (l: LanguageDef)
    ensures
        l@ == forth_view(),
{
    let mut regions: Vec<Region> = Vec::new();
    regions.push(comment_region(vec![40u8, 32u8], vec![41u8], false, false));
    regions.push(comment_region(vec![92u8], vec![10u8], false, false));
    let mut prefixes: Vec<Vec<u8>> = Vec::new();
    let l = LanguageDef {
        name: "Forth",
        regions,
        interest_bytes: vec![10u8, 40u8, 92u8],
        default_mode: DefaultMode::Code,
        structured_format: StructuredFormat::Text,
        leading_doc_prefixes: prefixes,
    };
    assert(l@ =~~= forth_view());
    l
}

/// FreeMarker.
pub open spec fn freemarker_view() -> LanguageView {
    LanguageView {
        name: "FreeMarker",
        regions: seq![comment_view(seq![60u8, 35u8, 45u8, 45u8], seq![45u8, 45u8, 62u8], false, false)],
        interest_bytes: seq![10u8, 60u8],
        default_mode: DefaultMode::Code,
        structured_format: StructuredFormat::Text,
        leading_doc_prefixes: seq![],
    }
}

/// FreeMarker (<#-- ... -->).
fn define_freemarker() -> (l: LanguageDef)
    ensures
        l@ == freemarker_view(),
{
    let mut regions: Vec<Region> = Vec::new();
    regions.push(comment_region(vec![60u8, 35u8, 45u8, 45u8], vec![45u8, 45u8, 62u8], false, false));
    let mut prefixes: Vec<Vec<u8>> = Vec::new();
    let l = LanguageDef {
        name: "FreeMarker",
        regions,
        interest_bytes: vec![10u8, 60u8],
        default_mode: DefaultMode::Code,
        structured_format: StructuredFormat::Text,
        leading_doc_prefixes: prefixes,
    };
    assert(l@ =~~= freemarker_view());
    l
}

/// Futhark.
pub open spec fn futhark_view() -> LanguageView {
    LanguageView {
        name: "Futhark",
        regions: seq![comment_view(seq![45u8, 45u8], seq![10u8], false, false)],
        interest_bytes: seq![10u8, 45u8],
        default_mode: DefaultMode::Code,
        structured_format: StructuredFormat::Text,
        leading_doc_prefixes: seq![],
    }
}

/// Futhark (-- ... newline).
fn define_futhark() -> (l: LanguageDef)
    ensures
        l@ == futhark_view(),
{
    let mut regions: Vec<Region> = Vec::new();
    regions.push(comment_region(vec![45u8, 45u8], vec![10u8], false, false));
    let mut prefixes: Vec<Vec<u8>> = Vec::new();
    let l = LanguageDef {
        name: "Futhark",
        regions,
        interest_bytes: vec![10u8, 45u8],
        default_mode: DefaultMode::Code,
        structured_format: StructuredFormat::Text,
        leading_doc_prefixes: prefixes,
    };
    assert(l@ =~~= futhark_view());
    l
}

/// GDB Script.
pub open spec fn gdb_script_view() -> LanguageView {
    LanguageView {
        name: "GDB Script",
        regions: seq![comment_view(seq![35u8], seq![10u8], false, false)],
        interest_bytes: seq![10u8, 35u8],
        default_mode: DefaultMode::Code,
        structured_format: StructuredFormat::Text,
        leading_doc_prefixes: seq![],
    }
}

/// GDB Script (# ... newline).
fn define_gdb_script() -> (l: LanguageDef)
    ensures
        l@ == gdb_script_view(),
{
    let mut regions: Vec<Region> = Vec::new();
    regions.push(comment_region(vec![35u8], vec![10u8], false, false));
    let mut prefixes: Vec<Vec<u8>> = Vec::new();
    let l = LanguageDef {
        name: "GDB Script",
        regions,
        interest_bytes: vec![10u8, 35u8],
        default_mode: DefaultMode::Code,
        structured_format: StructuredFormat::Text,
        leading_doc_prefixes: prefixes,
    };
    assert(l@ =~~= gdb_script_view());
    l
}

/// GDScript.
pub open spec fn gdscript_view() -> LanguageView {
    LanguageView {
        name: "GDScript",
        regions: seq![string_view(seq![34u8, 34u8, 34u8], seq![34u8, 34u8, 34u8], true), comment_view(seq![35u8], seq![10u8], false, false), string_view(seq![34u8], seq![34u8], true), string_view(seq![39u8], seq![39u8], true)],
        interest_bytes: seq![10u8, 34u8, 35u8, 39u8],
        default_mode: DefaultMode::Code,
        structured_format: StructuredFormat::Text,
        leading_doc_prefixes: seq![],
    }
}

/// GDScript (""" ... """; # ... newline; " ... "; ' ... ').
fn define_gdscript() -> (l: LanguageDef)
    ensures
        l@ == gdscript_view(),
{
    let mut regions: Vec<Region> = Vec::new();
    regions.push(string_region(vec![34u8, 34u8, 34u8], vec![34u8, 34u8, 34u8], true));
    regions.push(comment_region(vec![35u8], vec![10u8], false, false));
    regions.push(string_region(vec![34u8], vec![34u8], true));
    regions.push(string_region(vec![39u8], vec![39u8], true));
    let mut prefixes: Vec<Vec<u8>> = Vec::new();
    let l = LanguageDef {
        name: "GDScript",
        regions,
        interest_bytes: vec![10u8, 34u8, 35u8, 39u8],
        default_mode: DefaultMode::Code,
        structured_format: StructuredFormat::Text,
        leading_doc_prefixes: prefixes,
    };
    assert(l@ =~~= gdscript_view());
    l
}

/// GLSL.
pub open spec fn glsl_view() -> LanguageView {
    LanguageView {
        name: "GLSL",
        regions: seq![comment_view(seq![47u8, 47u8], seq![10u8], false, false), comment_view(seq![47u8, 42u8], seq![42u8, 47u8], false, false), string_view(seq![34u8], seq![34u8], true)],
        interest_bytes: seq![10u8, 34u8, 47u8],
        default_mode: DefaultMode::Code,
        structured_format: StructuredFormat::Text,
        leading_doc_prefixes: seq![],
    }
}

/// GLSL (// ... newline; /* ... */; " ... ").
fn define_glsl() -> (l: LanguageDef)
    ensures
        l@ == glsl_view(),
{
    let mut regions: Vec<Region> = Vec::new();
    regions.push(comment_region(vec![47u8, 47u8], vec![10u8], false, false));
    regions.push(comment_region(vec![47u8, 42u8], vec![42u8, 47u8], false, false));
    regions.push(string_region(vec![34u8], vec![34u8], true));
    let mut prefixes: Vec<Vec<u8>> = Vec::new();
    let l = LanguageDef {
        name: "GLSL",
        regions,
        interest_bytes: vec![10u8, 34u8, 47u8],
        default_mode: DefaultMode::Code,
        structured_format: StructuredFormat::Text,
        leading_doc_prefixes: prefixes,
    };
    assert(l@ =~~= glsl_view());
    l
}

/// GNU Style Assembly.
pub open spec fn gnu_style_assembly_view() -> LanguageView {
    LanguageView {
        name: "GNU Style Assembly",
        regions: seq![comment_view(seq![47u8, 47u8], seq![10u8], false, false), comment_view(seq![47u8, 42u8], seq![42u8, 47u8], false, false), string_view(seq![34u8], seq![34u8], true)],
        interest_bytes: seq![10u8, 34u8, 47u8],
        default_mode: DefaultMode::Code,
        structured_format: StructuredFormat::Text,
        leading_doc_prefixes: seq![],
    }
}

/// GNU Style Assembly (// ... newline; /* ... */; " ... ").
fn define_gnu_style_assembly() -> (l: LanguageDef)
    ensures
        l@ == gnu_style_assembly_view(),
{
    let mut regions: Vec<Region> = Vec::new();
    regions.push(comment_region(vec![47u8, 47u8], vec![10u8], false, false));
    regions.push(comment_region(vec![47u8, 42u8], vec![42u8, 47u8], false, false));
    regions.push(string_region(vec![34u8], vec![34u8], true));
    let mut prefixes: Vec<Vec<u8>> = Vec::new();
    let l = LanguageDef {
        name: "GNU Style Assembly",
        regions,
        interest_bytes: vec![10u8, 34u8, 47u8],
        default_mode: DefaultMode::Code,
        structured_format: StructuredFormat::Text,
        leading_doc_prefixes: prefixes,
    };
    assert(l@ =~~= gnu_style_assembly_view());
    l
}

/// Gherkin (Cucumber).
pub open spec fn gherkin_cucumber_view() -> LanguageView {
    LanguageView {
        name: "Gherkin (Cucumber)",
        regions: seq![comment_view(seq![35u8], seq![10u8], false, false)],
        interest_bytes: seq![10u8, 35u8],
        default_mode: DefaultMode::Code,
        structured_format: StructuredFormat::Text,
        leading_doc_prefixes: seq![],
    }
}

/// Gherkin (Cucumber) (# ... newline).
fn define_gherkin_cucumber() -> (l: LanguageDef)
    ensures
        l@ == gherkin_cucumber_view(),
{
    let mut regions: Vec<Region> = Vec::new();
    regions.push(comment_region(vec![35u8], vec![10u8], false, false));
    let mut prefixes: Vec<Vec<u8>> = Vec::new();
    let l = LanguageDef {
        name: "Gherkin (Cucumber)",
        regions,
        interest_bytes: vec![10u8, 35u8],
        default_mode: DefaultMode::Code,
        structured_format: StructuredFormat::Text,
        leading_doc_prefixes: prefixes,
    };
    assert(l@ =~~= gherkin_cucumber_view());
    l
}

/// Gleam.
pub open spec fn gleam_view() -> LanguageView {
    LanguageView {
        name: "Gleam",
        regions: seq![comment_view(seq![47u8, 47u8, 47u8, 47u8], seq![10u8], false, false), comment_view(seq![47u8, 47u8, 47u8], seq![10u8], false, false), comment_view(seq![47u8, 47u8], seq![10u8], false, false), string_view(seq![34u8], seq![34u8], true)],
        interest_bytes: seq![10u8, 34u8, 47u8],
        default_mode: DefaultMode::Code,
        structured_format: StructuredFormat::Text,
        leading_doc_prefixes: seq![],
    }
}

/// Gleam (//// ... newline; /// ... newline; // ... newline; " ... ").
fn define_gleam() -> (l: LanguageDef)
    ensures
        l@ == gleam_view(),
{
    let mut regions: Vec<Region> = Vec::new();
    regions.push(comment_region(vec![47u8, 47u8, 47u8, 47u8], vec![10u8], false, false));
    regions.push(comment_region(vec![47u8, 47u8, 47u8], vec![10u8], false, false));
    regions.push(comment_region(vec![47u8, 47u8], vec![10u8], false, false));
    regions.push(string_region(vec![34u8], vec![34u8], true));
    let mut prefixes: Vec<Vec<u8>> = Vec::new();
    let l = LanguageDef {
        name: "Gleam",
        regions,
        interest_bytes: vec![10u8, 34u8, 47u8],
        default_mode: DefaultMode::Code,
        structured_format: StructuredFormat::Text,
        leading_doc_prefixes: prefixes,
    };
    assert(l@ =~~= gleam_view());
    l
}

/// Go.
pub open spec fn go_view() -> LanguageView {
    LanguageView {
        name: "Go",
        regions: seq![comment_view(seq![47u8, 47u8], seq![10u8], false, false), comment_view(seq![47u8, 42u8], seq![42u8, 47u8], false, false), string_view(seq![34u8], seq![34u8], true)],
        interest_bytes: seq![10u8, 34u8, 47u8],
        default_mode: DefaultMode::Code,
        structured_format: StructuredFormat::Text,
        leading_doc_prefixes: seq![],
    }
}

/// Go (// ... newline; /* ... */; " ... ").
fn define_go() -> (l: LanguageDef)
    ensures
        l@ == go_view(),
{
    let mut regions: Vec<Region> = Vec::new();
    regions.push(comment_region(vec![47u8, 47u8], vec![10u8], false, false));
    regions.push(comment_region(vec![47u8, 42u8], vec![42u8, 47u8], false, false));
    regions.push(string_region(vec![34u8], vec![34u8], true));
    let mut prefixes: Vec<Vec<u8>> = Vec::new();
    let l = LanguageDef {
        name: "Go",
        regions,
        interest_bytes: vec![10u8, 34u8, 47u8],
        default_mode: DefaultMode::Code,
        structured_format: StructuredFormat::Text,
        leading_doc_prefixes: prefixes,
    };
    assert(l@ =~~= go_view());
    l
}

/// Go HTML.
pub open spec fn go_html_view() -> LanguageView {
    LanguageView {
        name: "Go HTML",
        regions: seq![comment_view(seq![60u8, 33u8, 45u8, 45u8], seq![45u8, 45u8, 62u8], false, false), comment_view(seq![123u8, 123u8, 47u8, 42u8], seq![42u8, 47u8, 125u8, 125u8], false, false), string_view(seq![34u8], seq![34u8], true), string_view(seq![39u8], seq![39u8], true)],
        interest_bytes: seq![10u8, 34u8, 39u8, 60u8, 123u8],
        default_mode: DefaultMode::Code,
        structured_format: StructuredFormat::Text,
        leading_doc_prefixes: seq![],
    }
}

/// Go HTML (<!-- ... -->; {{/* ... */}}; " ... "; ' ... ').
fn define_go_html() -> (l: LanguageDef)
    ensures
        l@ == go_html_view(),
{
    let mut regions: Vec<Region> = Vec::new();
    regions.push(comment_region(vec![60u8, 33u8, 45u8, 45u8], vec![45u8, 45u8, 62u8], false, false));
    regions.push(comment_region(vec![123u8, 123u8, 47u8, 42u8], vec![42u8, 47u8, 125u8, 125u8], false, false));
    regions.push(string_region(vec![34u8], vec![34u8], true));
    regions.push(string_region(vec![39u8], vec![39u8], true));
    let mut prefixes: Vec<Vec<u8>> = Vec::new();
    let l = LanguageDef {
        name: "Go HTML",
        regions,
        interest_bytes: vec![10u8, 34u8, 39u8, 60u8, 123u8],
        default_mode: DefaultMode::Code,
        structured_format: StructuredFormat::Text,
        leading_doc_prefixes: prefixes,
    };
    assert(l@ =~~= go_html_view());
    l
}

/// GraphQL.
pub open spec fn graphql_view() -> LanguageView {
    LanguageView {
        name: "GraphQL",
        regions: seq![string_view(seq![34u8, 34u8, 34u8], seq![34u8, 34u8, 34u8], true), comment_view(seq![35u8], seq![10u8], false, false), string_view(seq![34u8], seq![34u8], true)],
        interest_bytes: seq![10u8, 34u8, 35u8],
        default_mode: DefaultMode::Code,
        structured_format: StructuredFormat::Text,
        leading_doc_prefixes: seq![],
    }
}

/// GraphQL (""" ... """; # ... newline; " ... ").
fn define_graphql() -> (l: LanguageDef)
    ensures
        l@ == graphql_view(),
{
    let mut regions: Vec<Region> = Vec::new();
    regions.push(string_region(vec![34u8, 34u8, 34u8], vec![34u8, 34u8, 34u8], true));
    regions.push(comment_region(vec![35u8], vec![10u8], false, false));
    regions.push(string_region(vec![34u8], vec![34u8], true));
    let mut prefixes: Vec<Vec<u8>> = Vec::new();
    let l = LanguageDef {
        name: "GraphQL",
        regions,
        interest_bytes: vec![10u8, 34u8, 35u8],
        default_mode: DefaultMode::Code,
        structured_format: StructuredFormat::Text,
        leading_doc_prefixes: prefixes,
    };
    assert(l@ =~~= graphql_view());
    l
}

/// Groovy.
pub open spec fn groovy_view() -> LanguageView {
    LanguageView {
        name: "Groovy",
        regions: seq![comment_view(seq![47u8, 47u8], seq![10u8], false, false), comment_view(seq![47u8, 42u8], seq![42u8, 47u8], false, false), string_view(seq![34u8], seq![34u8], true)],
        interest_bytes: seq![10u8, 34u8, 47u8],
        default_mode: DefaultMode::Code,
        structured_format: StructuredFormat::Text,
        leading_doc_prefixes: seq![],
    }
}

/// Groovy (// ... newline; /* ... */; " ... ").
fn define_groovy() -> (l: LanguageDef)
    ensures
        l@ == groovy_view(),
{
    let mut regions: Vec<Region> = Vec::new();
    regions.push(comment_region(vec![47u8, 47u8], vec![10u8], false, false));
    regions.push(comment_region(vec![47u8, 42u8], vec![42u8, 47u8], false, false));
    regions.push(string_region(vec![34u8], vec![34u8], true));
    let mut prefixes: Vec<Vec<u8>> = Vec::new();
    let l = LanguageDef {
        name: "Groovy",
        regions,
        interest_bytes: vec![10u8, 34u8, 47u8],
        default_mode: DefaultMode::Code,
        structured_format: StructuredFormat::Text,
        leading_doc_prefixes: prefixes,
    };
    assert(l@ =~~= groovy_view());
    l
}

/// Gwion.
pub open spec fn gwion_view() -> LanguageView {
    LanguageView {
        name: "Gwion",
        regions: seq![comment_view(seq![35u8, 33u8], seq![10u8], false, false), string_view(seq![34u8], seq![34u8], true)],
        interest_bytes: seq![10u8, 34u8, 35u8],
        default_mode: DefaultMode::Code,
        structured_format: StructuredFormat::Text,
        leading_doc_prefixes: seq![],
    }
}

/// Gwion (#! ... newline; " ... ").
fn define_gwion() -> (l: LanguageDef)
    ensures
        l@ == gwion_view(),
{
    let mut regions: Vec<Region> = Vec::new();
    regions.push(comment_region(vec![35u8, 33u8], vec![10u8], false, false));
    regions.push(string_region(vec![34u8], vec![34u8], true));
    let mut prefixes: Vec<Vec<u8>> = Vec::new();
    let l = LanguageDef {
        name: "Gwion",
        regions,
        interest_bytes: vec![10u8, 34u8, 35u8],
        default_mode: DefaultMode::Code,
        structured_format: StructuredFormat::Text,
        leading_doc_prefixes: prefixes,
    };
    assert(l@ =~~= gwion_view());
    l
}

/// HCL.
pub open spec fn hcl_view() -> LanguageView {
    LanguageView {
        name: "HCL",
        regions: seq![comment_view(seq![47u8, 47u8], seq![10u8], false, false), comment_view(seq![47u8, 42u8], seq![42u8, 47u8], false, false), comment_view(seq![35u8], seq![10u8], false, false), string_view(seq![34u8], seq![34u8], true)],
        interest_bytes: seq![10u8, 34u8, 35u8, 47u8],
        default_mode: DefaultMode::Code,
        structured_format: StructuredFormat::Text,
        leading_doc_prefixes: seq![],
    }
}

/// HCL (// ... newline; /* ... */; # ... newline; " ... ").
fn define_hcl() -> (l: LanguageDef)
    ensures
        l@ == hcl_view(),
{
    let mut regions: Vec<Region> = Vec::new();
    regions.push(comment_region(vec![47u8, 47u8], vec![10u8], false, false));
    regions.push(comment_region(vec![47u8, 42u8], vec![42u8, 47u8], false, false));
    regions.push(comment_region(vec![35u8], vec![10u8], false, false));
    regions.push(string_region(vec![34u8], vec![34u8], true));
    let mut prefixes: Vec<Vec<u8>> = Vec::new();
    let l = LanguageDef {
        name: "HCL",
        regions,
        interest_bytes: vec![10u8, 34u8, 35u8, 47u8],
        default_mode: DefaultMode::Code,
        structured_format: StructuredFormat::Text,
        leading_doc_prefixes: prefixes,
    };
    assert(l@ =~~= hcl_view());
    l
}

/// HEX.
pub open spec fn hex_view() -> LanguageView {
    LanguageView {
        name: "HEX",
        regions: seq![],
        interest_bytes: seq![10u8],
        default_mode: DefaultMode::Code,
        structured_format: StructuredFormat::Text,
        leading_doc_prefixes: seq![],
    }
}

/// HEX (no regions).
fn define_hex() -> (l: LanguageDef)
    ensures
        l@ == hex_view(),
{
    let mut regions: Vec<Region> = Vec::new();
    let mut prefixes: Vec<Vec<u8>> = Vec::new();
    let l = LanguageDef {
        name: "HEX",
        regions,
        interest_bytes: vec![10u8],
        default_mode: DefaultMode::Code,
        structured_format: StructuredFormat::Text,
        leading_doc_prefixes: prefixes,
    };
    assert(l@ =~~= hex_view());
    l
}

/// HLSL.
pub open spec fn hlsl_view() -> LanguageView {
    LanguageView {
        name: "HLSL",
        regions: seq![comment_view(seq![47u8, 47u8], seq![10u8], false, false), comment_view(seq![47u8, 42u8], seq![42u8, 47u8], false, false), string_view(seq![34u8], seq![34u8], true)],
        interest_bytes: seq![10u8, 34u8, 47u8],
        default_mode: DefaultMode::Code,
        structured_format: StructuredFormat::Text,
        leading_doc_prefixes: seq![],
    }
}

/// HLSL (// ... newline; /* ... */; " ... ").
fn define_hlsl() -> (l: LanguageDef)
    ensures
        l@ == hlsl_view(),
{
    let mut regions: Vec<Region> = Vec::new();
    regions.push(comment_region(vec![47u8, 47u8], vec![10u8], false, false));
    regions.push(comment_region(vec![47u8, 42u8], vec![42u8, 47u8], false, false));
    regions.push(string_region(vec![34u8], vec![34u8], true));
    let mut prefixes: Vec<Vec<u8>> = Vec::new();
    let l = LanguageDef {
        name: "HLSL",
        regions,
        interest_bytes: vec![10u8, 34u8, 47u8],
        default_mode: DefaultMode::Code,
        structured_format: StructuredFormat::Text,
        leading_doc_prefixes: prefixes,
    };
    assert(l@ =~~= hlsl_view());
    l
}

/// HTML.
pub open spec fn html_view() -> LanguageView {
    LanguageView {
        name: "HTML",
        regions: seq![child_view(seq![60u8, 115u8, 99u8, 114u8, 105u8, 112u8, 116u8], seq![60u8, 47u8, 115u8, 99u8, 114u8, 105u8, 112u8, 116u8, 62u8], Some("JavaScript"), Detection::Tag), child_view(seq![60u8, 115u8, 116u8, 121u8, 108u8, 101u8], seq![60u8, 47u8, 115u8, 116u8, 121u8, 108u8, 101u8, 62u8], Some("CSS"), Detection::Tag), comment_view(seq![60u8, 33u8, 45u8, 45u8], seq![45u8, 45u8, 62u8], false, false)],
        interest_bytes: seq![10u8, 60u8],
        default_mode: DefaultMode::Code,
        structured_format: StructuredFormat::Text,
        leading_doc_prefixes: seq![],
    }
}

/// HTML (<script ... </script>; <style ... </style>; <!-- ... -->).
fn define_html() -> (l: LanguageDef)
    ensures
        l@ == html_view(),
{
    let mut regions: Vec<Region> = Vec::new();
    regions.push(child_region(vec![60u8, 115u8, 99u8, 114u8, 105u8, 112u8, 116u8], vec![60u8, 47u8, 115u8, 99u8, 114u8, 105u8, 112u8, 116u8, 62u8], Some("JavaScript"), Detection::Tag));
    regions.push(child_region(vec![60u8, 115u8, 116u8, 121u8, 108u8, 101u8], vec![60u8, 47u8, 115u8, 116u8, 121u8, 108u8, 101u8, 62u8], Some("CSS"), Detection::Tag));
    regions.push(comment_region(vec![60u8, 33u8, 45u8, 45u8], vec![45u8, 45u8, 62u8], false, false));
    let mut prefixes: Vec<Vec<u8>> = Vec::new();
    let l = LanguageDef {
        name: "HTML",
        regions,
        interest_bytes: vec![10u8, 60u8],
        default_mode: DefaultMode::Code,
        structured_format: StructuredFormat::Text,
        leading_doc_prefixes: prefixes,
    };
    assert(l@ =~~= html_view());
    l
}

/// Hamlet.
pub open spec fn hamlet_view() -> LanguageView {
    LanguageView {
        name: "Hamlet",
        regions: seq![comment_view(seq![60u8, 33u8, 45u8, 45u8], seq![45u8, 45u8, 62u8], false, false), string_view(seq![34u8], seq![34u8], true), string_view(seq![39u8], seq![39u8], true)],
        interest_bytes: seq![10u8, 34u8, 39u8, 60u8],
        default_mode: DefaultMode::Code,
        structured_format: StructuredFormat::Text,
        leading_doc_prefixes: seq![],
    }
}

/// Hamlet (<!-- ... -->; " ... "; ' ... ').
fn define_hamlet() -> (l: LanguageDef)
    ensures
        l@ == hamlet_view(),
{
    let mut regions: Vec<Region> = Vec::new();
    regions.push(comment_region(vec![60u8, 33u8, 45u8, 45u8], vec![45u8, 45u8, 62u8], false, false));
    regions.push(string_region(vec![34u8], vec![34u8], true));
    regions.push(string_region(vec![39u8], vec![39u8], true));
    let mut prefixes: Vec<Vec<u8>> = Vec::new();
    let l = LanguageDef {
        name: "Hamlet",
        regions,
        interest_bytes: vec![10u8, 34u8, 39u8, 60u8],
        default_mode: DefaultMode::Code,
        structured_format: StructuredFormat::Text,
        leading_doc_prefixes: prefixes,
    };
    assert(l@ =~~= hamlet_view());
    l
}

/// Handlebars.
pub open spec fn handlebars_view() -> LanguageView {
    LanguageView {
        name: "Handlebars",
        regions: seq![comment_view(seq![60u8, 33u8, 45u8, 45u8], seq![45u8, 45u8, 62u8], false, false), comment_view(seq![123u8, 123u8, 33u8], seq![125u8, 125u8], false, false), string_view(seq![34u8], seq![34u8], true), string_view(seq![39u8], seq![39u8], true)],
        interest_bytes: seq![10u8, 34u8, 39u8, 60u8, 123u8],
        default_mode: DefaultMode::Code,
        structured_format: StructuredFormat::Text,
        leading_doc_prefixes: seq![],
    }
}

/// Handlebars (<!-- ... -->; {{! ... }}; " ... "; ' ... ').
fn define_handlebars() -> (l: LanguageDef)
    ensures
        l@ == handlebars_view(),
{
    let mut regions: Vec<Region> = Vec::new();
    regions.push(comment_region(vec![60u8, 33u8, 45u8, 45u8], vec![45u8, 45u8, 62u8], false, false));
    regions.push(comment_region(vec![123u8, 123u8, 33u8], vec![125u8, 125u8], false, false));
    regions.push(string_region(vec![34u8], vec![34u8], true));
    regions.push(string_region(vec![39u8], vec![39u8], true));
    let mut prefixes: Vec<Vec<u8>> = Vec::new();
    let l = LanguageDef {
        name: "Handlebars",
        regions,
        interest_bytes: vec![10u8, 34u8, 39u8, 60u8, 123u8],
        default_mode: DefaultMode::Code,
        structured_format: StructuredFormat::Text,
        leading_doc_prefixes: prefixes,
    };
    assert(l@ =~~= handlebars_view());
    l
}

/// Happy.
pub open spec fn happy_view() -> LanguageView {
    LanguageView {
        name: "Happy",
        regions: seq![],
        interest_bytes: seq![10u8],
        default_mode: DefaultMode::Code,
        structured_format: StructuredFormat::Text,
        leading_doc_prefixes: seq![],
    }
}

/// Happy (no regions).
fn define_happy() -> (l: LanguageDef)
    ensures
        l@ == happy_view(),
{
    let mut regions: Vec<Region> = Vec::new();
    let mut prefixes: Vec<Vec<u8>> = Vec::new();
    let l = LanguageDef {
        name: "Happy",
        regions,
        interest_bytes: vec![10u8],
        default_mode: DefaultMode::Code,
        structured_format: StructuredFormat::Text,
        leading_doc_prefixes: prefixes,
    };
    assert(l@ =~~= happy_view());
    l
}

/// Haskell.
pub open spec fn haskell_view() -> LanguageView {
    LanguageView {
        name: "Haskell",
        regions: seq![comment_view(seq![45u8, 45u8], seq![10u8], false, false), comment_view(seq![123u8, 45u8], seq![45u8, 125u8], true, false)],
        interest_bytes: seq![10u8, 45u8, 123u8],
        default_mode: DefaultMode::Code,
        structured_format: StructuredFormat::Text,
        leading_doc_prefixes: seq![],
    }
}

/// Haskell (-- ... newline; {- ... -}).
fn define_haskell() -> (l: LanguageDef)
    ensures
        l@ == haskell_view(),
{
    let mut regions: Vec<Region> = Vec::new();
    regions.push(comment_region(vec![45u8, 45u8], vec![10u8], false, false));
    regions.push(comment_region(vec![123u8, 45u8], vec![45u8, 125u8], true, false));
    let mut prefixes: Vec<Vec<u8>> = Vec::new();
    let l = LanguageDef {
        name: "Haskell",
        regions,
        interest_bytes: vec![10u8, 45u8, 123u8],
        default_mode: DefaultMode::Code,
        structured_format: StructuredFormat::Text,
        leading_doc_prefixes: prefixes,
    };
    assert(l@ =~~= haskell_view());
    l
}

/// Haxe.
pub open spec fn haxe_view() -> LanguageView {
    LanguageView {
        name: "Haxe",
        regions: seq![comment_view(seq![47u8, 47u8], seq![10u8], false, false), comment_view(seq![47u8, 42u8], seq![42u8, 47u8], false, false), string_view(seq![34u8], seq![34u8], true), string_view(seq![39u8], seq![39u8], true)],
        interest_bytes: seq![10u8, 34u8, 39u8, 47u8],
        default_mode: DefaultMode::Code,
        structured_format: StructuredFormat::Text,
        leading_doc_prefixes: seq![],
    }
}

/// Haxe (// ... newline; /* ... */; " ... "; ' ... ').
fn define_haxe() -> (l: LanguageDef)
    ensures
        l@ == haxe_view(),
{
    let mut regions: Vec<Region> = Vec::new();
    regions.push(comment_region(vec![47u8, 47u8], vec![10u8], false, false));
    regions.push(comment_region(vec![47u8, 42u8], vec![42u8, 47u8], false, false));
    regions.push(string_region(vec![34u8], vec![34u8], true));
    regions.push(string_region(vec![39u8], vec![39u8], true));
    let mut prefixes: Vec<Vec<u8>> = Vec::new();
    let l = LanguageDef {
        name: "Haxe",
        regions,
        interest_bytes: vec![10u8, 34u8, 39u8, 47u8],
        default_mode: DefaultMode::Code,
        structured_format: StructuredFormat::Text,
        leading_doc_prefixes: prefixes,
    };
    assert(l@ =~~= haxe_view());
    l
}

/// Headache.
pub open spec fn headache_view() -> LanguageView {
    LanguageView {
        name: "Headache",
        regions: seq![comment_view(seq![47u8, 47u8], seq![10u8], false, false), comment_view(seq![47u8, 42u8], seq![42u8, 47u8], false, false), string_view(seq![34u8], seq![34u8], true)],
        interest_bytes: seq![10u8, 34u8, 47u8],
        default_mode: DefaultMode::Code,
        structured_format: StructuredFormat::Text,
        leading_doc_prefixes: seq![],
    }
}

/// Headache (// ... newline; /* ... */; " ... ").
fn define_headache() -> (l: LanguageDef)
    ensures
        l@ == headache_view(),
{
    let mut regions: Vec<Region> = Vec::new();
    regions.push(comment_region(vec![47u8, 47u8], vec![10u8], false, false));
    regions.push(comment_region(vec![47u8, 42u8], vec![42u8, 47u8], false, false));
    regions.push(string_region(vec![34u8], vec![34u8], true));
    let mut prefixes: Vec<Vec<u8>> = Vec::new();
    let l = LanguageDef {
        name: "Headache",
        regions,
        interest_bytes: vec![10u8, 34u8, 47u8],
        default_mode: DefaultMode::Code,
        structured_format: StructuredFormat::Text,
        leading_doc_prefixes: prefixes,
    };
    assert(l@ =~~= headache_view());
    l
}

/// HolyC.
pub open spec fn holyc_view() -> LanguageView {
    LanguageView {
        name: "HolyC",
        regions: seq![comment_view(seq![47u8, 47u8], seq![10u8], false, false), comment_view(seq![47u8, 42u8], seq![42u8, 47u8], false, false), string_view(seq![34u8], seq![34u8], true)],
        interest_bytes: seq![10u8, 34u8, 47u8],
        default_mode: DefaultMode::Code,
        structured_format: StructuredFormat::Text,
        leading_doc_prefixes: seq![],
    }
}

/// HolyC (// ... newline; /* ... */; " ... ").
fn define_holyc() -> (l: LanguageDef)
    ensures
        l@ == holyc_view(),
{
    let mut regions: Vec<Region> = Vec::new();
    regions.push(comment_region(vec![47u8, 47u8], vec![10u8], false, false));
    regions.push(comment_region(vec![47u8, 42u8], vec![42u8, 47u8], false, false));
    regions.push(string_region(vec![34u8], vec![34u8], true));
    let mut prefixes: Vec<Vec<u8>> = Vec::new();
    let l = LanguageDef {
        name: "HolyC",
        regions,
        interest_bytes: vec![10u8, 34u8, 47u8],
        default_mode: DefaultMode::Code,
        structured_format: StructuredFormat::Text,
        leading_doc_prefixes: prefixes,
    };
    assert(l@ =~~= holyc_view());
    l
}

/// INI.
pub open spec fn ini_view() -> LanguageView {
    LanguageView {
        name: "INI",
        regions: seq![comment_view(seq![59u8], seq![10u8], false, false), comment_view(seq![35u8], seq![10u8], false, false)],
        interest_bytes: seq![10u8, 35u8, 59u8],
        default_mode: DefaultMode::Code,
        structured_format: StructuredFormat::Text,
        leading_doc_prefixes: seq![],
    }
}

/// INI (; ... newline; # ... newline).
fn define_ini() -> (l: LanguageDef)
    ensures
        l@ == ini_view(),
{
    let mut regions: Vec<Region> = Vec::new();
    regions.push(comment_region(vec![59u8], vec![10u8], false, false));
    regions.push(comment_region(vec![35u8], vec![10u8], false, false));
    let mut prefixes: Vec<Vec<u8>> = Vec::new();
    let l = LanguageDef {
        name: "INI",
        regions,
        interest_bytes: vec![10u8, 35u8, 59u8],
        default_mode: DefaultMode::Code,
        structured_format: StructuredFormat::Text,
        leading_doc_prefixes: prefixes,
    };
    assert(l@ =~~= ini_view());
    l
}

/// Idris.
pub open spec fn idris_view() -> LanguageView {
    LanguageView {
        name: "Idris",
        regions: seq![string_view(seq![34u8, 34u8, 34u8], seq![34u8, 34u8, 34u8], true), comment_view(seq![45u8, 45u8], seq![10u8], false, false), comment_view(seq![123u8, 45u8], seq![45u8, 125u8], true, false), string_view(seq![34u8], seq![34u8], true)],
        interest_bytes: seq![10u8, 34u8, 45u8, 123u8],
        default_mode: DefaultMode::Code,
        structured_format: StructuredFormat::Text,
        leading_doc_prefixes: seq![],
    }
}

/// Idris (""" ... """; -- ... newline; {- ... -}; " ... ").
fn define_idris() -> (l: LanguageDef)
    ensures
        l@ == idris_view(),
{
    let mut regions: Vec<Region> = Vec::new();
    regions.push(string_region(vec![34u8, 34u8, 34u8], vec![34u8, 34u8, 34u8], true));
    regions.push(comment_region(vec![45u8, 45u8], vec![10u8], false, false));
    regions.push(comment_region(vec![123u8, 45u8], vec![45u8, 125u8], true, false));
    regions.push(string_region(vec![34u8], vec![34u8], true));
    let mut prefixes: Vec<Vec<u8>> = Vec::new();
    let l = LanguageDef {
        name: "Idris",
        regions,
        interest_bytes: vec![10u8, 34u8, 45u8, 123u8],
        default_mode: DefaultMode::Code,
        structured_format: StructuredFormat::Text,
        leading_doc_prefixes: prefixes,
    };
    assert(l@ =~~= idris_view());
    l
}

/// Intel HEX.
pub open spec fn intel_hex_view() -> LanguageView {
    LanguageView {
        name: "Intel HEX",
        regions: seq![],
        interest_bytes: seq![10u8],
        default_mode: DefaultMode::Code,
        structured_format: StructuredFormat::Text,
        leading_doc_prefixes: seq![],
    }
}

/// Intel HEX (no regions).
fn define_intel_hex() -> (l: LanguageDef)
    ensures
        l@ == intel_hex_view(),
{
    let mut regions: Vec<Region> = Vec::new();
    let mut prefixes: Vec<Vec<u8>> = Vec::new();
    let l = LanguageDef {
        name: "Intel HEX",
        regions,
        interest_bytes: vec![10u8],
        default_mode: DefaultMode::Code,
        structured_format: StructuredFormat::Text,
        leading_doc_prefixes: prefixes,
    };
    assert(l@ =~~= intel_hex_view());
    l
}

/// Isabelle.
pub open spec fn isabelle_view() -> LanguageView {
    LanguageView {
        name: "Isabelle",
        regions: seq![comment_view(seq![92u8, 60u8, 111u8, 112u8, 101u8, 110u8, 62u8], seq![92u8, 60u8, 99u8, 108u8, 111u8, 115u8, 101u8, 62u8], false, false), comment_view(seq![226u8, 128u8, 185u8], seq![226u8, 128u8, 186u8], false, false), comment_view(seq![45u8, 45u8], seq![10u8], false, false), comment_view(seq![123u8, 42u8], seq![42u8, 125u8], false, false), comment_view(seq![40u8, 42u8], seq![42u8, 41u8], false, false), string_view(seq![39u8, 39u8], seq![39u8, 39u8], true)],
        interest_bytes: seq![10u8, 39u8, 40u8, 45u8, 92u8, 123u8, 226u8],
        default_mode: DefaultMode::Code,
        structured_format: StructuredFormat::Text,
        leading_doc_prefixes: seq![],
    }
}

/// Isabelle (\<open> ... \<close>; ‹ ... ›; -- ... newline; {* ... *}; (* ... *); '' ... '').
fn define_isabelle() -> (l: LanguageDef)
    ensures
        l@ == isabelle_view(),
{
    let mut regions: Vec<Region> = Vec::new();
    regions.push(comment_region(vec![92u8, 60u8, 111u8, 112u8, 101u8, 110u8, 62u8], vec![92u8, 60u8, 99u8, 108u8, 111u8, 115u8, 101u8, 62u8], false, false));
    regions.push(comment_region(vec![226u8, 128u8, 185u8], vec![226u8, 128u8, 186u8], false, false));
    regions.push(comment_region(vec![45u8, 45u8], vec![10u8], false, false));
    regions.push(comment_region(vec![123u8, 42u8], vec![42u8, 125u8], false, false));
    regions.push(comment_region(vec![40u8, 42u8], vec![42u8, 41u8], false, false));
    regions.push(string_region(vec![39u8, 39u8], vec![39u8, 39u8], true));
    let mut prefixes: Vec<Vec<u8>> = Vec::new();
    let l = LanguageDef {
        name: "Isabelle",
        regions,
        interest_bytes: vec![10u8, 39u8, 40u8, 45u8, 92u8, 123u8, 226u8],
        default_mode: DefaultMode::Code,
        structured_format: StructuredFormat::Text,
        leading_doc_prefixes: prefixes,
    };
    assert(l@ =~~= isabelle_view());
    l
}

/// JAI.
pub open spec fn jai_view() -> LanguageView {
    LanguageView {
        name: "JAI",
        regions: seq![comment_view(seq![47u8, 47u8], seq![10u8], false, false), comment_view(seq![47u8, 42u8], seq![42u8, 47u8], true, false), string_view(seq![34u8], seq![34u8], true)],
        interest_bytes: seq![10u8, 34u8, 47u8],
        default_mode: DefaultMode::Code,
        structured_format: StructuredFormat::Text,
        leading_doc_prefixes: seq![],
    }
}

/// JAI (// ... newline; /* ... */; " ... ").
fn define_jai() -> (l: LanguageDef)
    ensures
        l@ == jai_view(),
{
    let mut regions: Vec<Region> = Vec::new();
    regions.push(comment_region(vec![47u8, 47u8], vec![10u8], false, false));
    regions.push(comment_region(vec![47u8, 42u8], vec![42u8, 47u8], true, false));
    regions.push(string_region(vec![34u8], vec![34u8], true));
    let mut prefixes: Vec<Vec<u8>> = Vec::new();
    let l = LanguageDef {
        name: "JAI",
        regions,
        interest_bytes: vec![10u8, 34u8, 47u8],
        default_mode: DefaultMode::Code,
        structured_format: StructuredFormat::Text,
        leading_doc_prefixes: prefixes,
    };
    assert(l@ =~~= jai_view());
    l
}

/// JSON.
pub open spec fn json_view() -> LanguageView {
    LanguageView {
        name: "JSON",
        regions: seq![string_view(seq![34u8], seq![34u8], true)],
        interest_bytes: seq![10u8, 34u8],
        default_mode: DefaultMode::Code,
        structured_format: StructuredFormat::Text,
        leading_doc_prefixes: seq![],
    }
}

/// JSON (" ... ").
fn define_json() -> (l: LanguageDef)
    ensures
        l@ == json_view(),
{
    let mut regions: Vec<Region> = Vec::new();
    regions.push(string_region(vec![34u8], vec![34u8], true));
    let mut prefixes: Vec<Vec<u8>> = Vec::new();
    let l = LanguageDef {
        name: "JSON",
        regions,
        interest_bytes: vec![10u8, 34u8],
        default_mode: DefaultMode::Code,
        structured_format: StructuredFormat::Text,
        leading_doc_prefixes: prefixes,
    };
    assert(l@ =~~= json_view());
    l
}

/// JSX.
pub open spec fn jsx_view() -> LanguageView {
    LanguageView {
        name: "JSX",
        regions: seq![comment_view(seq![47u8, 47u8], seq![10u8], false, false), comment_view(seq![47u8, 42u8], seq![42u8, 47u8], false, false), string_view(seq![34u8], seq![34u8], true), string_view(seq![39u8], seq![39u8], true), string_view(seq![96u8], seq![96u8], true)],
        interest_bytes: seq![10u8, 34u8, 39u8, 47u8, 96u8],
        default_mode: DefaultMode::Code,
        structured_format: StructuredFormat::Text,
        leading_doc_prefixes: seq![],
    }
}

/// JSX (// ... newline; /* ... */; " ... "; ' ... '; ' ... ').
fn define_jsx() -> (l: LanguageDef)
    ensures
        l@ == jsx_view(),
{
    let mut regions: Vec<Region> = Vec::new();
    regions.push(comment_region(vec![47u8, 47u8], vec![10u8], false, false));
    regions.push(comment_region(vec![47u8, 42u8], vec![42u8, 47u8], false, false));
    regions.push(string_region(vec![34u8], vec![34u8], true));
    regions.push(string_region(vec![39u8], vec![39u8], true));
    regions.push(string_region(vec![96u8], vec![96u8], true));
    let mut prefixes: Vec<Vec<u8>> = Vec::new();
    let l = LanguageDef {
        name: "JSX",
        regions,
        interest_bytes: vec![10u8, 34u8, 39u8, 47u8, 96u8],
        default_mode: DefaultMode::Code,
        structured_format: StructuredFormat::Text,
        leading_doc_prefixes: prefixes,
    };
    assert(l@ =~~= jsx_view());
    l
}

/// Java.
pub open spec fn java_view() -> LanguageView {
    LanguageView {
        name: "Java",
        regions: seq![comment_view(seq![47u8, 47u8], seq![10u8], false, false), comment_view(seq![47u8, 42u8], seq![42u8, 47u8], false, false), string_view(seq![34u8], seq![34u8], true)],
        interest_bytes: seq![10u8, 34u8, 47u8],
        default_mode: DefaultMode::Code,
        structured_format: StructuredFormat::Text,
        leading_doc_prefixes: seq![],
    }
}

/// Java (// ... newline; /* ... */; " ... ").
fn define_java() -> (l: LanguageDef)
    ensures
        l@ == java_view(),
{
    let mut regions: Vec<Region> = Vec::new();
    regions.push(comment_region(vec![47u8, 47u8], vec![10u8], false, false));
    regions.push(comment_region(vec![47u8, 42u8], vec![42u8, 47u8], false, false));
    regions.push(string_region(vec![34u8], vec![34u8], true));
    let mut prefixes: Vec<Vec<u8>> = Vec::new();
    let l = LanguageDef {
        name: "Java",
        regions,
        interest_bytes: vec![10u8, 34u8, 47u8],
        default_mode: DefaultMode::Code,
        structured_format: StructuredFormat::Text,
        leading_doc_prefixes: prefixes,
    };
    assert(l@ =~~= java_view());
    l
}

/// JavaScript.
pub open spec fn javascript_view() -> LanguageView {
    LanguageView {
        name: "JavaScript",
        regions: seq![comment_view(seq![47u8, 47u8], seq![10u8], false, false), comment_view(seq![47u8, 42u8], seq![42u8, 47u8], false, false), string_view(seq![34u8], seq![34u8], true), string_view(seq![39u8], seq![39u8], true), string_view(seq![96u8], seq![96u8], true)],
        interest_bytes: seq![10u8, 34u8, 39u8, 47u8, 96u8],
        default_mode: DefaultMode::Code,
        structured_format: StructuredFormat::Text,
        leading_doc_prefixes: seq![],
    }
}

/// JavaScript (// ... newline; /* ... */; " ... "; ' ... '; ' ... ').
fn define_javascript() -> (l: LanguageDef)
    ensures
        l@ == javascript_view(),
{
    let mut regions: Vec<Region> = Vec::new();
    regions.push(comment_region(vec![47u8, 47u8], vec![10u8], false, false));
    regions.push(comment_region(vec![47u8, 42u8], vec![42u8, 47u8], false, false));
    regions.push(string_region(vec![34u8], vec![34u8], true));
    regions.push(string_region(vec![39u8], vec![39u8], true));
    regions.push(string_region(vec![96u8], vec![96u8], true));
    let mut prefixes: Vec<Vec<u8>> = Vec::new();
    let l = LanguageDef {
        name: "JavaScript",
        regions,
        interest_bytes: vec![10u8, 34u8, 39u8, 47u8, 96u8],
        default_mode: DefaultMode::Code,
        structured_format: StructuredFormat::Text,
        leading_doc_prefixes: prefixes,
    };
    assert(l@ =~~= javascript_view());
    l
}

/// Jsonnet.
pub open spec fn jsonnet_view() -> LanguageView {
    LanguageView {
        name: "Jsonnet",
        regions: seq![comment_view(seq![47u8, 47u8], seq![10u8], false, false), comment_view(seq![47u8, 42u8], seq![42u8, 47u8], false, false), comment_view(seq![35u8], seq![10u8], false, false), string_view(seq![34u8], seq![34u8], true), string_view(seq![39u8], seq![39u8], true)],
        interest_bytes: seq![10u8, 34u8, 35u8, 39u8, 47u8],
        default_mode: DefaultMode::Code,
        structured_format: StructuredFormat::Text,
        leading_doc_prefixes: seq![],
    }
}

/// Jsonnet (// ... newline; /* ... */; # ... newline; " ... "; ' ... ').
fn define_jsonnet() -> (l: LanguageDef)
    ensures
        l@ == jsonnet_view(),
{
    let mut regions: Vec<Region> = Vec::new();
    regions.push(comment_region(vec![47u8, 47u8], vec![10u8], false, false));
    regions.push(comment_region(vec![47u8, 42u8], vec![42u8, 47u8], false, false));
    regions.push(comment_region(vec![35u8], vec![10u8], false, false));
    regions.push(string_region(vec![34u8], vec![34u8], true));
    regions.push(string_region(vec![39u8], vec![39u8], true));
    let mut prefixes: Vec<Vec<u8>> = Vec::new();
    let l = LanguageDef {
        name: "Jsonnet",
        regions,
        interest_bytes: vec![10u8, 34u8, 35u8, 39u8, 47u8],
        default_mode: DefaultMode::Code,
        structured_format: StructuredFormat::Text,
        leading_doc_prefixes: prefixes,
    };
    assert(l@ =~~= jsonnet_view());
    l
}

/// Julia.
pub open spec fn julia_view() -> LanguageView {
    LanguageView {
        name: "Julia",
        regions: seq![string_view(seq![34u8, 34u8, 34u8], seq![34u8, 34u8, 34u8], true), comment_view(seq![35u8, 61u8], seq![61u8, 35u8], true, false), comment_view(seq![35u8], seq![10u8], false, false), string_view(seq![34u8], seq![34u8], true)],
        interest_bytes: seq![10u8, 34u8, 35u8],
        default_mode: DefaultMode::Code,
        structured_format: StructuredFormat::Text,
        leading_doc_prefixes: seq![],
    }
}

/// Julia (""" ... """; #= ... =#; # ... newline; " ... ").
fn define_julia() -> (l: LanguageDef)
    ensures
        l@ == julia_view(),
{
    let mut regions: Vec<Region> = Vec::new();
    regions.push(string_region(vec![34u8, 34u8, 34u8], vec![34u8, 34u8, 34u8], true));
    regions.push(comment_region(vec![35u8, 61u8], vec![61u8, 35u8], true, false));
    regions.push(comment_region(vec![35u8], vec![10u8], false, false));
    regions.push(string_region(vec![34u8], vec![34u8], true));
    let mut prefixes: Vec<Vec<u8>> = Vec::new();
    let l = LanguageDef {
        name: "Julia",
        regions,
        interest_bytes: vec![10u8, 34u8, 35u8],
        default_mode: DefaultMode::Code,
        structured_format: StructuredFormat::Text,
        leading_doc_prefixes: prefixes,
    };
    assert(l@ =~~= julia_view());
    l
}

/// Julius.
pub open spec fn julius_view() -> LanguageView {
    LanguageView {
        name: "Julius",
        regions: seq![comment_view(seq![47u8, 47u8], seq![10u8], false, false), comment_view(seq![47u8, 42u8], seq![42u8, 47u8], false, false), string_view(seq![34u8], seq![34u8], true), string_view(seq![39u8], seq![39u8], true), string_view(seq![96u8], seq![96u8], true)],
        interest_bytes: seq![10u8, 34u8, 39u8, 47u8, 96u8],
        default_mode: DefaultMode::Code,
        structured_format: StructuredFormat::Text,
        leading_doc_prefixes: seq![],
    }
}

/// Julius (// ... newline; /* ... */; " ... "; ' ... '; ' ... ').
fn define_julius() -> (l: LanguageDef)
    ensures
        l@ == julius_view(),
{
    let mut regions: Vec<Region> = Vec::new();
    regions.push(comment_region(vec![47u8, 47u8], vec![10u8], false, false));
    regions.push(comment_region(vec![47u8, 42u8], vec![42u8, 47u8], false, false));
    regions.push(string_region(vec![34u8], vec![34u8], true));
    regions.push(string_region(vec![39u8], vec![39u8], true));
    regions.push(string_region(vec![96u8], vec![96u8], true));
    let mut prefixes: Vec<Vec<u8>> = Vec::new();
    let l = LanguageDef {
        name: "Julius",
        regions,
        interest_bytes: vec![10u8, 34u8, 39u8, 47u8, 96u8],
        default_mode: DefaultMode::Code,
        structured_format: StructuredFormat::Text,
        leading_doc_prefixes: prefixes,
    };
    assert(l@ =~~= julius_view());
    l
}

/// Jupyter Notebooks.
pub open spec fn jupyter_notebooks_view() -> LanguageView {
    LanguageView {
        name: "Jupyter Notebooks",
        regions: seq![],
        interest_bytes: seq![10u8],
        default_mode: DefaultMode::Code,
        structured_format: StructuredFormat::Jupyter,
        leading_doc_prefixes: seq![],
    }
}

/// Jupyter Notebooks (no regions).
fn define_jupyter_notebooks() -> (l: LanguageDef)
    ensures
        l@ == jupyter_notebooks_view(),
{
    let mut regions: Vec<Region> = Vec::new();
    let mut prefixes: Vec<Vec<u8>> = Vec::new();
    let l = LanguageDef {
        name: "Jupyter Notebooks",
        regions,
        interest_bytes: vec![10u8],
        default_mode: DefaultMode::Code,
        structured_format: StructuredFormat::Jupyter,
        leading_doc_prefixes: prefixes,
    };
    assert(l@ =~~= jupyter_notebooks_view());
    l
}

/// K.
pub open spec fn k_view() -> LanguageView {
    LanguageView {
        name: "K",
        regions: seq![comment_view(seq![47u8], seq![10u8], false, false), string_view(seq![34u8], seq![34u8], true)],
        interest_bytes: seq![10u8, 34u8, 47u8],
        default_mode: DefaultMode::Code,
        structured_format: StructuredFormat::Text,
        leading_doc_prefixes: seq![],
    }
}

/// K (/ ... newline; " ... ").
fn define_k() -> (l: LanguageDef)
    ensures
        l@ == k_view(),
{
    let mut regions: Vec<Region> = Vec::new();
    regions.push(comment_region(vec![47u8], vec![10u8], false, false));
    regions.push(string_region(vec![34u8], vec![34u8], true));
    let mut prefixes: Vec<Vec<u8>> = Vec::new();
    let l = LanguageDef {
        name: "K",
        regions,
        interest_bytes: vec![10u8, 34u8, 47u8],
        default_mode: DefaultMode::Code,
        structured_format: StructuredFormat::Text,
        leading_doc_prefixes: prefixes,
    };
    assert(l@ =~~= k_view());
    l
}

/// Kakoune script.
pub open spec fn kakoune_script_view() -> LanguageView {
    LanguageView {
        name: "Kakoune script",
        regions: seq![comment_view(seq![35u8], seq![10u8], false, false), string_view(seq![34u8], seq![34u8], true), string_view(seq![39u8], seq![39u8], true)],
        interest_bytes: seq![10u8, 34u8, 35u8, 39u8],
        default_mode: DefaultMode::Code,
        structured_format: StructuredFormat::Text,
        leading_doc_prefixes: seq![],
    }
}

/// Kakoune script (# ... newline; " ... "; ' ... ').
fn define_kakoune_script() -> (l: LanguageDef)
    ensures
        l@ == kakoune_script_view(),
{
    let mut regions: Vec<Region> = Vec::new();
    regions.push(comment_region(vec![35u8], vec![10u8], false, false));
    regions.push(string_region(vec![34u8], vec![34u8], true));
    regions.push(string_region(vec![39u8], vec![39u8], true));
    let mut prefixes: Vec<Vec<u8>> = Vec::new();
    let l = LanguageDef {
        name: "Kakoune script",
        regions,
        interest_bytes: vec![10u8, 34u8, 35u8, 39u8],
        default_mode: DefaultMode::Code,
        structured_format: StructuredFormat::Text,
        leading_doc_prefixes: prefixes,
    };
    assert(l@ =~~= kakoune_script_view());
    l
}

/// Kotlin.
pub open spec fn kotlin_view() -> LanguageView {
    LanguageView {
        name: "Kotlin",
        regions: seq![string_view(seq![34u8, 34u8, 34u8], seq![34u8, 34u8, 34u8], true), comment_view(seq![47u8, 47u8], seq![10u8], false, false), comment_view(seq![47u8, 42u8], seq![42u8, 47u8], true, false), string_view(seq![34u8], seq![34u8], true)],
        interest_bytes: seq![10u8, 34u8, 47u8],
        default_mode: DefaultMode::Code,
        structured_format: StructuredFormat::Text,
        leading_doc_prefixes: seq![],
    }
}

/// Kotlin (""" ... """; // ... newline; /* ... */; " ... ").
fn define_kotlin() -> (l: LanguageDef)
    ensures
        l@ == kotlin_view(),
{
    let mut regions: Vec<Region> = Vec::new();
    regions.push(string_region(vec![34u8, 34u8, 34u8], vec![34u8, 34u8, 34u8], true));
    regions.push(comment_region(vec![47u8, 47u8], vec![10u8], false, false));
    regions.push(comment_region(vec![47u8, 42u8], vec![42u8, 47u8], true, false));
    regions.push(string_region(vec![34u8], vec![34u8], true));
    let mut prefixes: Vec<Vec<u8>> = Vec::new();
    let l = LanguageDef {
        name: "Kotlin",
        regions,
        interest_bytes: vec![10u8, 34u8, 47u8],
        default_mode: DefaultMode::Code,
        structured_format: StructuredFormat::Text,
        leading_doc_prefixes: prefixes,
    };
    assert(l@ =~~= kotlin_view());
    l
}

/// LD Script.
pub open spec fn ld_script_view() -> LanguageView {
    LanguageView {
        name: "LD Script",
        regions: seq![comment_view(seq![47u8, 47u8], seq![10u8], false, false), comment_view(seq![47u8, 42u8], seq![42u8, 47u8], false, false), string_view(seq![34u8], seq![34u8], true)],
        interest_bytes: seq![10u8, 34u8, 47u8],
        default_mode: DefaultMode::Code,
        structured_format: StructuredFormat::Text,
        leading_doc_prefixes: seq![],
    }
}

/// LD Script (// ... newline; /* ... */; " ... ").
fn define_ld_script() -> (l: LanguageDef)
    ensures
        l@ == ld_script_view(),
{
    let mut regions: Vec<Region> = Vec::new();
    regions.push(comment_region(vec![47u8, 47u8], vec![10u8], false, false));
    regions.push(comment_region(vec![47u8, 42u8], vec![42u8, 47u8], false, false));
    regions.push(string_region(vec![34u8], vec![34u8], true));
    let mut prefixes: Vec<Vec<u8>> = Vec::new();
    let l = LanguageDef {
        name: "LD Script",
        regions,
        interest_bytes: vec![10u8, 34u8, 47u8],
        default_mode: DefaultMode::Code,
        structured_format: StructuredFormat::Text,
        leading_doc_prefixes: prefixes,
    };
    assert(l@ =~~= ld_script_view());
    l
}

/// LESS.
pub open spec fn less_view() -> LanguageView {
    LanguageView {
        name: "LESS",
        regions: seq![comment_view(seq![47u8, 47u8], seq![10u8], false, false), comment_view(seq![47u8, 42u8], seq![42u8, 47u8], false, false), string_view(seq![34u8], seq![34u8], true), string_view(seq![39u8], seq![39u8], true)],
        interest_bytes: seq![10u8, 34u8, 39u8, 47u8],
        default_mode: DefaultMode::Code,
        structured_format: StructuredFormat::Text,
        leading_doc_prefixes: seq![],
    }
}

/// LESS (// ... newline; /* ... */; " ... "; ' ... ').
fn define_less() -> (l: LanguageDef)
    ensures
        l@ == less_view(),
{
    let mut regions: Vec<Region> = Vec::new();
    regions.push(comment_region(vec![47u8, 47u8], vec![10u8], false, false));
    regions.push(comment_region(vec![47u8, 42u8], vec![42u8, 47u8], false, false));
    regions.push(string_region(vec![34u8], vec![34u8], true));
    regions.push(string_region(vec![39u8], vec![39u8], true));
    let mut prefixes: Vec<Vec<u8>> = Vec::new();
    let l = LanguageDef {
        name: "LESS",
        regions,
        interest_bytes: vec![10u8, 34u8, 39u8, 47u8],
        default_mode: DefaultMode::Code,
        structured_format: StructuredFormat::Text,
        leading_doc_prefixes: prefixes,
    };
    assert(l@ =~~= less_view());
    l
}

/// LLVM.
pub open spec fn llvm_view() -> LanguageView {
    LanguageView {
        name: "LLVM",
        regions: seq![comment_view(seq![59u8], seq![10u8], false, false), string_view(seq![34u8], seq![34u8], true), string_view(seq![39u8], seq![39u8], true)],
        interest_bytes: seq![10u8, 34u8, 39u8, 59u8],
        default_mode: DefaultMode::Code,
        structured_format: StructuredFormat::Text,
        leading_doc_prefixes: seq![],
    }
}

/// LLVM (; ... newline; " ... "; ' ... ').
fn define_llvm() -> (l: LanguageDef)
    ensures
        l@ == llvm_view(),
{
    let mut regions: Vec<Region> = Vec::new();
    regions.push(comment_region(vec![59u8], vec![10u8], false, false));
    regions.push(string_region(vec![34u8], vec![34u8], true));
    regions.push(string_region(vec![39u8], vec![39u8], true));
    let mut prefixes: Vec<Vec<u8>> = Vec::new();
    let l = LanguageDef {
        name: "LLVM",
        regions,
        interest_bytes: vec![10u8, 34u8, 39u8, 59u8],
        default_mode: DefaultMode::Code,
        structured_format: StructuredFormat::Text,
        leading_doc_prefixes: prefixes,
    };
    assert(l@ =~~= llvm_view());
    l
}

/// Lean.
pub open spec fn lean_view() -> LanguageView {
    LanguageView {
        name: "Lean",
        regions: seq![comment_view(seq![45u8, 45u8], seq![10u8], false, false), comment_view(seq![47u8, 45u8], seq![45u8, 47u8], true, false)],
        interest_bytes: seq![10u8, 45u8, 47u8],
        default_mode: DefaultMode::Code,
        structured_format: StructuredFormat::Text,
        leading_doc_prefixes: seq![],
    }
}

/// Lean (-- ... newline; /- ... -/).
fn define_lean() -> (l: LanguageDef)
    ensures
        l@ == lean_view(),
{
    let mut regions: Vec<Region> = Vec::new();
    regions.push(comment_region(vec![45u8, 45u8], vec![10u8], false, false));
    regions.push(comment_region(vec![47u8, 45u8], vec![45u8, 47u8], true, false));
    let mut prefixes: Vec<Vec<u8>> = Vec::new();
    let l = LanguageDef {
        name: "Lean",
        regions,
        interest_bytes: vec![10u8, 45u8, 47u8],
        default_mode: DefaultMode::Code,
        structured_format: StructuredFormat::Text,
        leading_doc_prefixes: prefixes,
    };
    assert(l@ =~~= lean_view());
    l
}

/// Liquid.
pub open spec fn liquid_view() -> LanguageView {
    LanguageView {
        name: "Liquid",
        regions: seq![comment_view(seq![123u8, 37u8, 32u8, 99u8, 111u8, 109u8, 109u8, 101u8, 110u8, 116u8, 32u8, 37u8, 125u8], seq![123u8, 37u8, 32u8, 101u8, 110u8, 100u8, 99u8, 111u8, 109u8, 109u8, 101u8, 110u8, 116u8, 32u8, 37u8, 125u8], false, false), comment_view(seq![60u8, 33u8, 45u8, 45u8], seq![45u8, 45u8, 62u8], false, false), string_view(seq![34u8], seq![34u8], true), string_view(seq![39u8], seq![39u8], true)],
        interest_bytes: seq![10u8, 34u8, 39u8, 60u8, 123u8],
        default_mode: DefaultMode::Code,
        structured_format: StructuredFormat::Text,
        leading_doc_prefixes: seq![],
    }
}

/// Liquid ({% comment %} ... {% endcomment %}; <!-- ... -->; " ... "; ' ... ').
fn define_liquid() -> (l: LanguageDef)
    ensures
        l@ == liquid_view(),
{
    let mut regions: Vec<Region> = Vec::new();
    regions.push(comment_region(vec![123u8, 37u8, 32u8, 99u8, 111u8, 109u8, 109u8, 101u8, 110u8, 116u8, 32u8, 37u8, 125u8], vec![123u8, 37u8, 32u8, 101u8, 110u8, 100u8, 99u8, 111u8, 109u8, 109u8, 101u8, 110u8, 116u8, 32u8, 37u8, 125u8], false, false));
    regions.push(comment_region(vec![60u8, 33u8, 45u8, 45u8], vec![45u8, 45u8, 62u8], false, false));
    regions.push(string_region(vec![34u8], vec![34u8], true));
    regions.push(string_region(vec![39u8], vec![39u8], true));
    let mut prefixes: Vec<Vec<u8>> = Vec::new();
    let l = LanguageDef {
        name: "Liquid",
        regions,
        interest_bytes: vec![10u8, 34u8, 39u8, 60u8, 123u8],
        default_mode: DefaultMode::Code,
        structured_format: StructuredFormat::Text,
        leading_doc_prefixes: prefixes,
    };
    assert(l@ =~~= liquid_view());
    l
}

/// Lisp.
pub open spec fn lisp_view() -> LanguageView {
    LanguageView {
        name: "Lisp",
        regions: seq![comment_view(seq![35u8, 124u8], seq![124u8, 35u8], true, false), comment_view(seq![59u8], seq![10u8], false, false)],
        interest_bytes: seq![10u8, 35u8, 59u8],
        default_mode: DefaultMode::Code,
        structured_format: StructuredFormat::Text,
        leading_doc_prefixes: seq![],
    }
}

/// Lisp (#| ... |#; ; ... newline).
fn define_lisp() -> (l: LanguageDef)
    ensures
        l@ == lisp_view(),
{
    let mut regions: Vec<Region> = Vec::new();
    regions.push(comment_region(vec![35u8, 124u8], vec![124u8, 35u8], true, false));
    regions.push(comment_region(vec![59u8], vec![10u8], false, false));
    let mut prefixes: Vec<Vec<u8>> = Vec::new();
    let l = LanguageDef {
        name: "Lisp",
        regions,
        interest_bytes: vec![10u8, 35u8, 59u8],
        default_mode: DefaultMode::Code,
        structured_format: StructuredFormat::Text,
        leading_doc_prefixes: prefixes,
    };
    assert(l@ =~~= lisp_view());
    l
}

/// LiveScript.
pub open spec fn livescript_view() -> LanguageView {
    LanguageView {
        name: "LiveScript",
        regions: seq![comment_view(seq![47u8, 42u8], seq![42u8, 47u8], false, false), comment_view(seq![35u8], seq![10u8], false, false), string_view(seq![34u8], seq![34u8], true), string_view(seq![39u8], seq![39u8], true)],
        interest_bytes: seq![10u8, 34u8, 35u8, 39u8, 47u8],
        default_mode: DefaultMode::Code,
        structured_format: StructuredFormat::Text,
        leading_doc_prefixes: seq![],
    }
}

/// LiveScript (/* ... */; # ... newline; " ... "; ' ... ').
fn define_livescript() -> (l: LanguageDef)
    ensures
        l@ == livescript_view(),
{
    let mut regions: Vec<Region> = Vec::new();
    regions.push(comment_region(vec![47u8, 42u8], vec![42u8, 47u8], false, false));
    regions.push(comment_region(vec![35u8], vec![10u8], false, false));
    regions.push(string_region(vec![34u8], vec![34u8], true));
    regions.push(string_region(vec![39u8], vec![39u8], true));
    let mut prefixes: Vec<Vec<u8>> = Vec::new();
    let l = LanguageDef {
        name: "LiveScript",
        regions,
        interest_bytes: vec![10u8, 34u8, 35u8, 39u8, 47u8],
        default_mode: DefaultMode::Code,
        structured_format: StructuredFormat::Text,
        leading_doc_prefixes: prefixes,
    };
    assert(l@ =~~= livescript_view());
    l
}

/// Logtalk.
pub open spec fn logtalk_view() -> LanguageView {
    LanguageView {
        name: "Logtalk",
        regions: seq![comment_view(seq![47u8, 42u8], seq![42u8, 47u8], false, false), comment_view(seq![37u8], seq![10u8], false, false), string_view(seq![34u8], seq![34u8], true)],
        interest_bytes: seq![10u8, 34u8, 37u8, 47u8],
        default_mode: DefaultMode::Code,
        structured_format: StructuredFormat::Text,
        leading_doc_prefixes: seq![],
    }
}

/// Logtalk (/* ... */; % ... newline; " ... ").
fn define_logtalk() -> (l: LanguageDef)
    ensures
        l@ == logtalk_view(),
{
    let mut regions: Vec<Region> = Vec::new();
    regions.push(comment_region(vec![47u8, 42u8], vec![42u8, 47u8], false, false));
    regions.push(comment_region(vec![37u8], vec![10u8], false, false));
    regions.push(string_region(vec![34u8], vec![34u8], true));
    let mut prefixes: Vec<Vec<u8>> = Vec::new();
    let l = LanguageDef {
        name: "Logtalk",
        regions,
        interest_bytes: vec![10u8, 34u8, 37u8, 47u8],
        default_mode: DefaultMode::Code,
        structured_format: StructuredFormat::Text,
        leading_doc_prefixes: prefixes,
    };
    assert(l@ =~~= logtalk_view());
    l
}

/// Lua.
pub open spec fn lua_view() -> LanguageView {
    LanguageView {
        name: "Lua",
        regions: seq![comment_view(seq![45u8, 45u8, 91u8, 91u8], seq![93u8, 93u8], false, false), comment_view(seq![45u8, 45u8], seq![10u8], false, false), string_view(seq![34u8], seq![34u8], true), string_view(seq![39u8], seq![39u8], true)],
        interest_bytes: seq![10u8, 34u8, 39u8, 45u8],
        default_mode: DefaultMode::Code,
        structured_format: StructuredFormat::Text,
        leading_doc_prefixes: seq![],
    }
}

/// Lua (--[[ ... ]]; -- ... newline; " ... "; ' ... ').
fn define_lua() -> (l: LanguageDef)
    ensures
        l@ == lua_view(),
{
    let mut regions: Vec<Region> = Vec::new();
    regions.push(comment_region(vec![45u8, 45u8, 91u8, 91u8], vec![93u8, 93u8], false, false));
    regions.push(comment_region(vec![45u8, 45u8], vec![10u8], false, false));
    regions.push(string_region(vec![34u8], vec![34u8], true));
    regions.push(string_region(vec![39u8], vec![39u8], true));
    let mut prefixes: Vec<Vec<u8>> = Vec::new();
    let l = LanguageDef {
        name: "Lua",
        regions,
        interest_bytes: vec![10u8, 34u8, 39u8, 45u8],
        default_mode: DefaultMode::Code,
        structured_format: StructuredFormat::Text,
        leading_doc_prefixes: prefixes,
    };
    assert(l@ =~~= lua_view());
    l
}

/// Lucius.
pub open spec fn lucius_view() -> LanguageView {
    LanguageView {
        name: "Lucius",
        regions: seq![comment_view(seq![47u8, 47u8], seq![10u8], false, false), comment_view(seq![47u8, 42u8], seq![42u8, 47u8], false, false), string_view(seq![34u8], seq![34u8], true), string_view(seq![39u8], seq![39u8], true)],
        interest_bytes: seq![10u8, 34u8, 39u8, 47u8],
        default_mode: DefaultMode::Code,
        structured_format: StructuredFormat::Text,
        leading_doc_prefixes: seq![],
    }
}

/// Lucius (// ... newline; /* ... */; " ... "; ' ... ').
fn define_lucius() -> (l: LanguageDef)
    ensures
        l@ == lucius_view(),
{
    let mut regions: Vec<Region> = Vec::new();
    regions.push(comment_region(vec![47u8, 47u8], vec![10u8], false, false));
    regions.push(comment_region(vec![47u8, 42u8], vec![42u8, 47u8], false, false));
    regions.push(string_region(vec![34u8], vec![34u8], true));
    regions.push(string_region(vec![39u8], vec![39u8], true));
    let mut prefixes: Vec<Vec<u8>> = Vec::new();
    let l = LanguageDef {
        name: "Lucius",
        regions,
        interest_bytes: vec![10u8, 34u8, 39u8, 47u8],
        default_mode: DefaultMode::Code,
        structured_format: StructuredFormat::Text,
        leading_doc_prefixes: prefixes,
    };
    assert(l@ =~~= lucius_view());
    l
}

/// MSBuild.
pub open spec fn msbuild_view() -> LanguageView {
    LanguageView {
        name: "MSBuild",
        regions: seq![comment_view(seq![60u8, 33u8, 45u8, 45u8], seq![45u8, 45u8, 62u8], false, false), string_view(seq![34u8], seq![34u8], true), string_view(seq![39u8], seq![39u8], true)],
        interest_bytes: seq![10u8, 34u8, 39u8, 60u8],
        default_mode: DefaultMode::Code,
        structured_format: StructuredFormat::Text,
        leading_doc_prefixes: seq![],
    }
}

/// MSBuild (<!-- ... -->; " ... "; ' ... ').
fn define_msbuild() -> (l: LanguageDef)
    ensures
        l@ == msbuild_view(),
{
    let mut regions: Vec<Region> = Vec::new();
    regions.push(comment_region(vec![60u8, 33u8, 45u8, 45u8], vec![45u8, 45u8, 62u8], false, false));
    regions.push(string_region(vec![34u8], vec![34u8], true));
    regions.push(string_region(vec![39u8], vec![39u8], true));
    let mut prefixes: Vec<Vec<u8>> = Vec::new();
    let l = LanguageDef {
        name: "MSBuild",
        regions,
        interest_bytes: vec![10u8, 34u8, 39u8, 60u8],
        default_mode: DefaultMode::Code,
        structured_format: StructuredFormat::Text,
        leading_doc_prefixes: prefixes,
    };
    assert(l@ =~~= msbuild_view());
    l
}

/// Madlang.
pub open spec fn madlang_view() -> LanguageView {
    LanguageView {
        name: "Madlang",
        regions: seq![comment_view(seq![123u8, 35u8], seq![35u8, 125u8], false, false), comment_view(seq![35u8], seq![10u8], false, false)],
        interest_bytes: seq![10u8, 35u8, 123u8],
        default_mode: DefaultMode::Code,
        structured_format: StructuredFormat::Text,
        leading_doc_prefixes: seq![],
    }
}

/// Madlang ({# ... #}; # ... newline).
fn define_madlang() -> (l: LanguageDef)
    ensures
        l@ == madlang_view(),
{
    let mut regions: Vec<Region> = Vec::new();
    regions.push(comment_region(vec![123u8, 35u8], vec![35u8, 125u8], false, false));
    regions.push(comment_region(vec![35u8], vec![10u8], false, false));
    let mut prefixes: Vec<Vec<u8>> = Vec::new();
    let l = LanguageDef {
        name: "Madlang",
        regions,
        interest_bytes: vec![10u8, 35u8, 123u8],
        default_mode: DefaultMode::Code,
        structured_format: StructuredFormat::Text,
        leading_doc_prefixes: prefixes,
    };
    assert(l@ =~~= madlang_view());
    l
}

/// Makefile.
pub open spec fn makefile_view() -> LanguageView {
    LanguageView {
        name: "Makefile",
        regions: seq![comment_view(seq![35u8], seq![10u8], false, false)],
        interest_bytes: seq![10u8, 35u8],
        default_mode: DefaultMode::Code,
        structured_format: StructuredFormat::Text,
        leading_doc_prefixes: seq![],
    }
}

/// Makefile (# ... newline).
fn define_makefile() -> (l: LanguageDef)
    ensures
        l@ == makefile_view(),
{
    let mut regions: Vec<Region> = Vec::new();
    regions.push(comment_region(vec![35u8], vec![10u8], false, false));
    let mut prefixes: Vec<Vec<u8>> = Vec::new();
    let l = LanguageDef {
        name: "Makefile",
        regions,
        interest_bytes: vec![10u8, 35u8],
        default_mode: DefaultMode::Code,
        structured_format: StructuredFormat::Text,
        leading_doc_prefixes: prefixes,
    };
    assert(l@ =~~= makefile_view());
    l
}

/// Markdown.
pub open spec fn markdown_view() -> LanguageView {
    LanguageView {
        name: "Markdown",
        regions: seq![child_view(seq![96u8, 96u8, 96u8], seq![96u8, 96u8, 96u8], None, Detection::Fence), child_view(seq![126u8, 126u8, 126u8], seq![126u8, 126u8, 126u8], None, Detection::Fence)],
        interest_bytes: seq![10u8, 96u8, 126u8],
        default_mode: DefaultMode::Comment,
        structured_format: StructuredFormat::Text,
        leading_doc_prefixes: seq![],
    }
}

/// Markdown (''' ... '''; ~~~ ... ~~~).
fn define_markdown() -> (l: LanguageDef)
    ensures
        l@ == markdown_view(),
{
    let mut regions: Vec<Region> = Vec::new();
    regions.push(child_region(vec![96u8, 96u8, 96u8], vec![96u8, 96u8, 96u8], None, Detection::Fence));
    regions.push(child_region(vec![126u8, 126u8, 126u8], vec![126u8, 126u8, 126u8], None, Detection::Fence));
    let mut prefixes: Vec<Vec<u8>> = Vec::new();
    let l = LanguageDef {
        name: "Markdown",
        regions,
        interest_bytes: vec![10u8, 96u8, 126u8],
        default_mode: DefaultMode::Comment,
        structured_format: StructuredFormat::Text,
        leading_doc_prefixes: prefixes,
    };
    assert(l@ =~~= markdown_view());
    l
}

/// Meson.
pub open spec fn meson_view() -> LanguageView {
    LanguageView {
        name: "Meson",
        regions: seq![string_view(seq![39u8, 39u8, 39u8], seq![39u8, 39u8, 39u8], true), comment_view(seq![35u8], seq![10u8], false, false), string_view(seq![39u8], seq![39u8], true)],
        interest_bytes: seq![10u8, 35u8, 39u8],
        default_mode: DefaultMode::Code,
        structured_format: StructuredFormat::Text,
        leading_doc_prefixes: seq![],
    }
}

/// Meson (''' ... '''; # ... newline; ' ... ').
fn define_meson() -> (l: LanguageDef)
    ensures
        l@ == meson_view(),
{
    let mut regions: Vec<Region> = Vec::new();
    regions.push(string_region(vec![39u8, 39u8, 39u8], vec![39u8, 39u8, 39u8], true));
    regions.push(comment_region(vec![35u8], vec![10u8], false, false));
    regions.push(string_region(vec![39u8], vec![39u8], true));
    let mut prefixes: Vec<Vec<u8>> = Vec::new();
    let l = LanguageDef {
        name: "Meson",
        regions,
        interest_bytes: vec![10u8, 35u8, 39u8],
        default_mode: DefaultMode::Code,
        structured_format: StructuredFormat::Text,
        leading_doc_prefixes: prefixes,
    };
    assert(l@ =~~= meson_view());
    l
}

/// Mint.
pub open spec fn mint_view() -> LanguageView {
    LanguageView {
        name: "Mint",
        regions: seq![],
        interest_bytes: seq![10u8],
        default_mode: DefaultMode::Code,
        structured_format: StructuredFormat::Text,
        leading_doc_prefixes: seq![],
    }
}

/// Mint (no regions).
fn define_mint() -> (l: LanguageDef)
    ensures
        l@ == mint_view(),
{
    let mut regions: Vec<Region> = Vec::new();
    let mut prefixes: Vec<Vec<u8>> = Vec::new();
    let l = LanguageDef {
        name: "Mint",
        regions,
        interest_bytes: vec![10u8],
        default_mode: DefaultMode::Code,
        structured_format: StructuredFormat::Text,
        leading_doc_prefixes: prefixes,
    };
    assert(l@ =~~= mint_view());
    l
}

/// Module-Definition.
pub open spec fn module_definition_view() -> LanguageView {
    LanguageView {
        name: "Module-Definition",
        regions: seq![comment_view(seq![59u8], seq![10u8], false, false)],
        interest_bytes: seq![10u8, 59u8],
        default_mode: DefaultMode::Code,
        structured_format: StructuredFormat::Text,
        leading_doc_prefixes: seq![],
    }
}

/// Module-Definition (; ... newline).
fn define_module_definition() -> (l: LanguageDef)
    ensures
        l@ == module_definition_view(),
{
    let mut regions: Vec<Region> = Vec::new();
    regions.push(comment_region(vec![59u8], vec![10u8], false, false));
    let mut prefixes: Vec<Vec<u8>> = Vec::new();
    let l = LanguageDef {
        name: "Module-Definition",
        regions,
        interest_bytes: vec![10u8, 59u8],
        default_mode: DefaultMode::Code,
        structured_format: StructuredFormat::Text,
        leading_doc_prefixes: prefixes,
    };
    assert(l@ =~~= module_definition_view());
    l
}

/// MoonScript.
pub open spec fn moonscript_view() -> LanguageView {
    LanguageView {
        name: "MoonScript",
        regions: seq![comment_view(seq![45u8, 45u8], seq![10u8], false, false), string_view(seq![34u8], seq![34u8], true), string_view(seq![39u8], seq![39u8], true)],
        interest_bytes: seq![10u8, 34u8, 39u8, 45u8],
        default_mode: DefaultMode::Code,
        structured_format: StructuredFormat::Text,
        leading_doc_prefixes: seq![],
    }
}

/// MoonScript (-- ... newline; " ... "; ' ... ').
fn define_moonscript() -> (l: LanguageDef)
    ensures
        l@ == moonscript_view(),
{
    let mut regions: Vec<Region> = Vec::new();
    regions.push(comment_region(vec![45u8, 45u8], vec![10u8], false, false));
    regions.push(string_region(vec![34u8], vec![34u8], true));
    regions.push(string_region(vec![39u8], vec![39u8], true));
    let mut prefixes: Vec<Vec<u8>> = Vec::new();
    let l = LanguageDef {
        name: "MoonScript",
        regions,
        interest_bytes: vec![10u8, 34u8, 39u8, 45u8],
        default_mode: DefaultMode::Code,
        structured_format: StructuredFormat::Text,
        leading_doc_prefixes: prefixes,
    };
    assert(l@ =~~= moonscript_view());
    l
}

/// Mustache.
pub open spec fn mustache_view() -> LanguageView {
    LanguageView {
        name: "Mustache",
        regions: seq![comment_view(seq![123u8, 123u8, 33u8], seq![125u8, 125u8], false, false), string_view(seq![34u8], seq![34u8], true), string_view(seq![39u8], seq![39u8], true)],
        interest_bytes: seq![10u8, 34u8, 39u8, 123u8],
        default_mode: DefaultMode::Code,
        structured_format: StructuredFormat::Text,
        leading_doc_prefixes: seq![],
    }
}

/// Mustache ({{! ... }}; " ... "; ' ... ').
fn define_mustache() -> (l: LanguageDef)
    ensures
        l@ == mustache_view(),
{
    let mut regions: Vec<Region> = Vec::new();
    regions.push(comment_region(vec![123u8, 123u8, 33u8], vec![125u8, 125u8], false, false));
    regions.push(string_region(vec![34u8], vec![34u8], true));
    regions.push(string_region(vec![39u8], vec![39u8], true));
    let mut prefixes: Vec<Vec<u8>> = Vec::new();
    let l = LanguageDef {
        name: "Mustache",
        regions,
        interest_bytes: vec![10u8, 34u8, 39u8, 123u8],
        default_mode: DefaultMode::Code,
        structured_format: StructuredFormat::Text,
        leading_doc_prefixes: prefixes,
    };
    assert(l@ =~~= mustache_view());
    l
}

/// Nim.
pub open spec fn nim_view() -> LanguageView {
    LanguageView {
        name: "Nim",
        regions: seq![string_view(seq![34u8, 34u8, 34u8], seq![34u8, 34u8, 34u8], true), comment_view(seq![35u8], seq![10u8], false, false), string_view(seq![34u8], seq![34u8], true)],
        interest_bytes: seq![10u8, 34u8, 35u8],
        default_mode: DefaultMode::Code,
        structured_format: StructuredFormat::Text,
        leading_doc_prefixes: seq![],
    }
}

/// Nim (""" ... """; # ... newline; " ... ").
fn define_nim() -> (l: LanguageDef)
    ensures
        l@ == nim_view(),
{
    let mut regions: Vec<Region> = Vec::new();
    regions.push(string_region(vec![34u8, 34u8, 34u8], vec![34u8, 34u8, 34u8], true));
    regions.push(comment_region(vec![35u8], vec![10u8], false, false));
    regions.push(string_region(vec![34u8], vec![34u8], true));
    let mut prefixes: Vec<Vec<u8>> = Vec::new();
    let l = LanguageDef {
        name: "Nim",
        regions,
        interest_bytes: vec![10u8, 34u8, 35u8],
        default_mode: DefaultMode::Code,
        structured_format: StructuredFormat::Text,
        leading_doc_prefixes: prefixes,
    };
    assert(l@ =~~= nim_view());
    l
}

/// Nix.
pub open spec fn nix_view() -> LanguageView {
    LanguageView {
        name: "Nix",
        regions: seq![comment_view(seq![47u8, 42u8], seq![42u8, 47u8], false, false), comment_view(seq![35u8], seq![10u8], false, false), string_view(seq![34u8], seq![34u8], true)],
        interest_bytes: seq![10u8, 34u8, 35u8, 47u8],
        default_mode: DefaultMode::Code,
        structured_format: StructuredFormat::Text,
        leading_doc_prefixes: seq![],
    }
}

/// Nix (/* ... */; # ... newline; " ... ").
fn define_nix() -> (l: LanguageDef)
    ensures
        l@ == nix_view(),
{
    let mut regions: Vec<Region> = Vec::new();
    regions.push(comment_region(vec![47u8, 42u8], vec![42u8, 47u8], false, false));
    regions.push(comment_region(vec![35u8], vec![10u8], false, false));
    regions.push(string_region(vec![34u8], vec![34u8], true));
    let mut prefixes: Vec<Vec<u8>> = Vec::new();
    let l = LanguageDef {
        name: "Nix",
        regions,
        interest_bytes: vec![10u8, 34u8, 35u8, 47u8],
        default_mode: DefaultMode::Code,
        structured_format: StructuredFormat::Text,
        leading_doc_prefixes: prefixes,
    };
    assert(l@ =~~= nix_view());
    l
}

/// Not Quite Perl.
pub open spec fn not_quite_perl_view() -> LanguageView {
    LanguageView {
        name: "Not Quite Perl",
        regions: seq![comment_view(seq![61u8, 98u8, 101u8, 103u8, 105u8, 110u8], seq![61u8, 101u8, 110u8, 100u8], false, false), comment_view(seq![35u8], seq![10u8], false, false), string_view(seq![34u8], seq![34u8], true), string_view(seq![39u8], seq![39u8], true)],
        interest_bytes: seq![10u8, 34u8, 35u8, 39u8, 61u8],
        default_mode: DefaultMode::Code,
        structured_format: StructuredFormat::Text,
        leading_doc_prefixes: seq![],
    }
}

/// Not Quite Perl (=begin ... =end; # ... newline; " ... "; ' ... ').
fn define_not_quite_perl() -> (l: LanguageDef)
    ensures
        l@ == not_quite_perl_view(),
{
    let mut regions: Vec<Region> = Vec::new();
    regions.push(comment_region(vec![61u8, 98u8, 101u8, 103u8, 105u8, 110u8], vec![61u8, 101u8, 110u8, 100u8], false, false));
    regions.push(comment_region(vec![35u8], vec![10u8], false, false));
    regions.push(string_region(vec![34u8], vec![34u8], true));
    regions.push(string_region(vec![39u8], vec![39u8], true));
    let mut prefixes: Vec<Vec<u8>> = Vec::new();
    let l = LanguageDef {
        name: "Not Quite Perl",
        regions,
        interest_bytes: vec![10u8, 34u8, 35u8, 39u8, 61u8],
        default_mode: DefaultMode::Code,
        structured_format: StructuredFormat::Text,
        leading_doc_prefixes: prefixes,
    };
    assert(l@ =~~= not_quite_perl_view());
    l
}

/// OCaml.
pub open spec fn ocaml_view() -> LanguageView {
    LanguageView {
        name: "OCaml",
        regions: seq![comment_view(seq![40u8, 42u8], seq![42u8, 41u8], false, false), string_view(seq![34u8], seq![34u8], true)],
        interest_bytes: seq![10u8, 34u8, 40u8],
        default_mode: DefaultMode::Code,
        structured_format: StructuredFormat::Text,
        leading_doc_prefixes: seq![],
    }
}

/// OCaml ((* ... *); " ... ").
fn define_ocaml() -> (l: LanguageDef)
    ensures
        l@ == ocaml_view(),
{
    let mut regions: Vec<Region> = Vec::new();
    regions.push(comment_region(vec![40u8, 42u8], vec![42u8, 41u8], false, false));
    regions.push(string_region(vec![34u8], vec![34u8], true));
    let mut prefixes: Vec<Vec<u8>> = Vec::new();
    let l = LanguageDef {
        name: "OCaml",
        regions,
        interest_bytes: vec![10u8, 34u8, 40u8],
        default_mode: DefaultMode::Code,
        structured_format: StructuredFormat::Text,
        leading_doc_prefixes: prefixes,
    };
    assert(l@ =~~= ocaml_view());
    l
}

/// Objective-C.
pub open spec fn objective_c_view() -> LanguageView {
    LanguageView {
        name: "Objective-C",
        regions: seq![comment_view(seq![47u8, 47u8], seq![10u8], false, false), comment_view(seq![47u8, 42u8], seq![42u8, 47u8], false, false), string_view(seq![34u8], seq![34u8], true)],
        interest_bytes: seq![10u8, 34u8, 47u8],
        default_mode: DefaultMode::Code,
        structured_format: StructuredFormat::Text,
        leading_doc_prefixes: seq![],
    }
}

/// Objective-C (// ... newline; /* ... */; " ... ").
fn define_objective_c() -> (l: LanguageDef)
    ensures
        l@ == objective_c_view(),
{
    let mut regions: Vec<Region> = Vec::new();
    regions.push(comment_region(vec![47u8, 47u8], vec![10u8], false, false));
    regions.push(comment_region(vec![47u8, 42u8], vec![42u8, 47u8], false, false));
    regions.push(string_region(vec![34u8], vec![34u8], true));
    let mut prefixes: Vec<Vec<u8>> = Vec::new();
    let l = LanguageDef {
        name: "Objective-C",
        regions,
        interest_bytes: vec![10u8, 34u8, 47u8],
        default_mode: DefaultMode::Code,
        structured_format: StructuredFormat::Text,
        leading_doc_prefixes: prefixes,
    };
    assert(l@ =~~= objective_c_view());
    l
}

/// Objective-C++.
pub open spec fn objective_cpp_view() -> LanguageView {
    LanguageView {
        name: "Objective-C++",
        regions: seq![comment_view(seq![47u8, 47u8], seq![10u8], false, false), comment_view(seq![47u8, 42u8], seq![42u8, 47u8], false, false), string_view(seq![34u8], seq![34u8], true)],
        interest_bytes: seq![10u8, 34u8, 47u8],
        default_mode: DefaultMode::Code,
        structured_format: StructuredFormat::Text,
        leading_doc_prefixes: seq![],
    }
}

/// Objective-C++ (// ... newline; /* ... */; " ... ").
fn define_objective_cpp() -> (l: LanguageDef)
    ensures
        l@ == objective_cpp_view(),
{
    let mut regions: Vec<Region> = Vec::new();
    regions.push(comment_region(vec![47u8, 47u8], vec![10u8], false, false));
    regions.push(comment_region(vec![47u8, 42u8], vec![42u8, 47u8], false, false));
    regions.push(string_region(vec![34u8], vec![34u8], true));
    let mut prefixes: Vec<Vec<u8>> = Vec::new();
    let l = LanguageDef {
        name: "Objective-C++",
        regions,
        interest_bytes: vec![10u8, 34u8, 47u8],
        default_mode: DefaultMode::Code,
        structured_format: StructuredFormat::Text,
        leading_doc_prefixes: prefixes,
    };
    assert(l@ =~~= objective_cpp_view());
    l
}

/// Odin.
pub open spec fn odin_view() -> LanguageView {
    LanguageView {
        name: "Odin",
        regions: seq![comment_view(seq![47u8, 47u8], seq![10u8], false, false), comment_view(seq![47u8, 42u8], seq![42u8, 47u8], false, false), string_view(seq![34u8], seq![34u8], true), string_view(seq![39u8], seq![39u8], true)],
        interest_bytes: seq![10u8, 34u8, 39u8, 47u8],
        default_mode: DefaultMode::Code,
        structured_format: StructuredFormat::Text,
        leading_doc_prefixes: seq![],
    }
}

/// Odin (// ... newline; /* ... */; " ... "; ' ... ').
fn define_odin() -> (l: LanguageDef)
    ensures
        l@ == odin_view(),
{
    let mut regions: Vec<Region> = Vec::new();
    regions.push(comment_region(vec![47u8, 47u8], vec![10u8], false, false));
    regions.push(comment_region(vec![47u8, 42u8], vec![42u8, 47u8], false, false));
    regions.push(string_region(vec![34u8], vec![34u8], true));
    regions.push(string_region(vec![39u8], vec![39u8], true));
    let mut prefixes: Vec<Vec<u8>> = Vec::new();
    let l = LanguageDef {
        name: "Odin",
        regions,
        interest_bytes: vec![10u8, 34u8, 39u8, 47u8],
        default_mode: DefaultMode::Code,
        structured_format: StructuredFormat::Text,
        leading_doc_prefixes: prefixes,
    };
    assert(l@ =~~= odin_view());
    l
}

/// OpenType Feature File.
pub open spec fn opentype_feature_file_view() -> LanguageView {
    LanguageView {
        name: "OpenType Feature File",
        regions: seq![comment_view(seq![35u8], seq![10u8], false, false)],
        interest_bytes: seq![10u8, 35u8],
        default_mode: DefaultMode::Code,
        structured_format: StructuredFormat::Text,
        leading_doc_prefixes: seq![],
    }
}

/// OpenType Feature File (# ... newline).
fn define_opentype_feature_file() -> (l: LanguageDef)
    ensures
        l@ == opentype_feature_file_view(),
{
    let mut regions: Vec<Region> = Vec::new();
    regions.push(comment_region(vec![35u8], vec![10u8], false, false));
    let mut prefixes: Vec<Vec<u8>> = Vec::new();
    let l = LanguageDef {
        name: "OpenType Feature File",
        regions,
        interest_bytes: vec![10u8, 35u8],
        default_mode: DefaultMode::Code,
        structured_format: StructuredFormat::Text,
        leading_doc_prefixes: prefixes,
    };
    assert(l@ =~~= opentype_feature_file_view());
    l
}

/// Org.
pub open spec fn org_view() -> LanguageView {
    LanguageView {
        name: "Org",
        regions: seq![comment_view(seq![35u8, 32u8], seq![10u8], false, false)],
        interest_bytes: seq![10u8, 35u8],
        default_mode: DefaultMode::Code,
        structured_format: StructuredFormat::Text,
        leading_doc_prefixes: seq![],
    }
}

/// Org (#  ... newline).
fn define_org() -> (l: LanguageDef)
    ensures
        l@ == org_view(),
{
    let mut regions: Vec<Region> = Vec::new();
    regions.push(comment_region(vec![35u8, 32u8], vec![10u8], false, false));
    let mut prefixes: Vec<Vec<u8>> = Vec::new();
    let l = LanguageDef {
        name: "Org",
        regions,
        interest_bytes: vec![10u8, 35u8],
        default_mode: DefaultMode::Code,
        structured_format: StructuredFormat::Text,
        leading_doc_prefixes: prefixes,
    };
    assert(l@ =~~= org_view());
    l
}

/// Oz.
pub open spec fn oz_view() -> LanguageView {
    LanguageView {
        name: "Oz",
        regions: seq![comment_view(seq![47u8, 42u8], seq![42u8, 47u8], false, false), comment_view(seq![37u8], seq![10u8], false, false), string_view(seq![34u8], seq![34u8], true)],
        interest_bytes: seq![10u8, 34u8, 37u8, 47u8],
        default_mode: DefaultMode::Code,
        structured_format: StructuredFormat::Text,
        leading_doc_prefixes: seq![],
    }
}

/// Oz (/* ... */; % ... newline; " ... ").
fn define_oz() -> (l: LanguageDef)
    ensures
        l@ == oz_view(),
{
    let mut regions: Vec<Region> = Vec::new();
    regions.push(comment_region(vec![47u8, 42u8], vec![42u8, 47u8], false, false));
    regions.push(comment_region(vec![37u8], vec![10u8], false, false));
    regions.push(string_region(vec![34u8], vec![34u8], true));
    let mut prefixes: Vec<Vec<u8>> = Vec::new();
    let l = LanguageDef {
        name: "Oz",
        regions,
        interest_bytes: vec![10u8, 34u8, 37u8, 47u8],
        default_mode: DefaultMode::Code,
        structured_format: StructuredFormat::Text,
        leading_doc_prefixes: prefixes,
    };
    assert(l@ =~~= oz_view());
    l
}

/// PHP.
pub open spec fn php_view() -> LanguageView {
    LanguageView {
        name: "PHP",
        regions: seq![comment_view(seq![47u8, 47u8], seq![10u8], false, false), comment_view(seq![47u8, 42u8], seq![42u8, 47u8], false, false), comment_view(seq![35u8], seq![10u8], false, false), string_view(seq![34u8], seq![34u8], true), string_view(seq![39u8], seq![39u8], true)],
        interest_bytes: seq![10u8, 34u8, 35u8, 39u8, 47u8],
        default_mode: DefaultMode::Code,
        structured_format: StructuredFormat::Text,
        leading_doc_prefixes: seq![],
    }
}

/// PHP (// ... newline; /* ... */; # ... newline; " ... "; ' ... ').
fn define_php() -> (l: LanguageDef)
    ensures
        l@ == php_view(),
{
    let mut regions: Vec<Region> = Vec::new();
    regions.push(comment_region(vec![47u8, 47u8], vec![10u8], false, false));
    regions.push(comment_region(vec![47u8, 42u8], vec![42u8, 47u8], false, false));
    regions.push(comment_region(vec![35u8], vec![10u8], false, false));
    regions.push(string_region(vec![34u8], vec![34u8], true));
    regions.push(string_region(vec![39u8], vec![39u8], true));
    let mut prefixes: Vec<Vec<u8>> = Vec::new();
    let l = LanguageDef {
        name: "PHP",
        regions,
        interest_bytes: vec![10u8, 34u8, 35u8, 39u8, 47u8],
        default_mode: DefaultMode::Code,
        structured_format: StructuredFormat::Text,
        leading_doc_prefixes: prefixes,
    };
    assert(l@ =~~= php_view());
    l
}

/// PSL Assertion.
pub open spec fn psl_assertion_view() -> LanguageView {
    LanguageView {
        name: "PSL Assertion",
        regions: seq![comment_view(seq![47u8, 47u8], seq![10u8], false, false), comment_view(seq![47u8, 42u8], seq![42u8, 47u8], false, false), string_view(seq![34u8], seq![34u8], true)],
        interest_bytes: seq![10u8, 34u8, 47u8],
        default_mode: DefaultMode::Code,
        structured_format: StructuredFormat::Text,
        leading_doc_prefixes: seq![],
    }
}

/// PSL Assertion (// ... newline; /* ... */; " ... ").
fn define_psl_assertion() -> (l: LanguageDef)
    ensures
        l@ == psl_assertion_view(),
{
    let mut regions: Vec<Region> = Vec::new();
    regions.push(comment_region(vec![47u8, 47u8], vec![10u8], false, false));
    regions.push(comment_region(vec![47u8, 42u8], vec![42u8, 47u8], false, false));
    regions.push(string_region(vec![34u8], vec![34u8], true));
    let mut prefixes: Vec<Vec<u8>> = Vec::new();
    let l = LanguageDef {
        name: "PSL Assertion",
        regions,
        interest_bytes: vec![10u8, 34u8, 47u8],
        default_mode: DefaultMode::Code,
        structured_format: StructuredFormat::Text,
        leading_doc_prefixes: prefixes,
    };
    assert(l@ =~~= psl_assertion_view());
    l
}

/// Pan.
pub open spec fn pan_view() -> LanguageView {
    LanguageView {
        name: "Pan",
        regions: seq![comment_view(seq![35u8], seq![10u8], false, false), string_view(seq![34u8], seq![34u8], true), string_view(seq![39u8], seq![39u8], true)],
        interest_bytes: seq![10u8, 34u8, 35u8, 39u8],
        default_mode: DefaultMode::Code,
        structured_format: StructuredFormat::Text,
        leading_doc_prefixes: seq![],
    }
}

/// Pan (# ... newline; " ... "; ' ... ').
fn define_pan() -> (l: LanguageDef)
    ensures
        l@ == pan_view(),
{
    let mut regions: Vec<Region> = Vec::new();
    regions.push(comment_region(vec![35u8], vec![10u8], false, false));
    regions.push(string_region(vec![34u8], vec![34u8], true));
    regions.push(string_region(vec![39u8], vec![39u8], true));
    let mut prefixes: Vec<Vec<u8>> = Vec::new();
    let l = LanguageDef {
        name: "Pan",
        regions,
        interest_bytes: vec![10u8, 34u8, 35u8, 39u8],
        default_mode: DefaultMode::Code,
        structured_format: StructuredFormat::Text,
        leading_doc_prefixes: prefixes,
    };
    assert(l@ =~~= pan_view());
    l
}

/// Pascal.
pub open spec fn pascal_view() -> LanguageView {
    LanguageView {
        name: "Pascal",
        regions: seq![comment_view(seq![47u8, 47u8], seq![10u8], false, false), comment_view(seq![40u8, 42u8], seq![42u8, 41u8], true, false), comment_view(seq![123u8], seq![125u8], true, false), string_view(seq![39u8], seq![39u8], true)],
        interest_bytes: seq![10u8, 39u8, 40u8, 47u8, 123u8],
        default_mode: DefaultMode::Code,
        structured_format: StructuredFormat::Text,
        leading_doc_prefixes: seq![],
    }
}

/// Pascal (// ... newline; (* ... *); { ... }; ' ... ').
fn define_pascal() -> (l: LanguageDef)
    ensures
        l@ == pascal_view(),
{
    let mut regions: Vec<Region> = Vec::new();
    regions.push(comment_region(vec![47u8, 47u8], vec![10u8], false, false));
    regions.push(comment_region(vec![40u8, 42u8], vec![42u8, 41u8], true, false));
    regions.push(comment_region(vec![123u8], vec![125u8], true, false));
    regions.push(string_region(vec![39u8], vec![39u8], true));
    let mut prefixes: Vec<Vec<u8>> = Vec::new();
    let l = LanguageDef {
        name: "Pascal",
        regions,
        interest_bytes: vec![10u8, 39u8, 40u8, 47u8, 123u8],
        default_mode: DefaultMode::Code,
        structured_format: StructuredFormat::Text,
        leading_doc_prefixes: prefixes,
    };
    assert(l@ =~~= pascal_view());
    l
}

/// Perl.
pub open spec fn perl_view() -> LanguageView {
    LanguageView {
        name: "Perl",
        regions: seq![comment_view(seq![61u8, 112u8, 111u8, 100u8], seq![61u8, 99u8, 117u8, 116u8], false, false), comment_view(seq![35u8], seq![10u8], false, false), string_view(seq![34u8], seq![34u8], true), string_view(seq![39u8], seq![39u8], true)],
        interest_bytes: seq![10u8, 34u8, 35u8, 39u8, 61u8],
        default_mode: DefaultMode::Code,
        structured_format: StructuredFormat::Text,
        leading_doc_prefixes: seq![],
    }
}

/// Perl (=pod ... =cut; # ... newline; " ... "; ' ... ').
fn define_perl() -> (l: LanguageDef)
    ensures
        l@ == perl_view(),
{
    let mut regions: Vec<Region> = Vec::new();
    regions.push(comment_region(vec![61u8, 112u8, 111u8, 100u8], vec![61u8, 99u8, 117u8, 116u8], false, false));
    regions.push(comment_region(vec![35u8], vec![10u8], false, false));
    regions.push(string_region(vec![34u8], vec![34u8], true));
    regions.push(string_region(vec![39u8], vec![39u8], true));
    let mut prefixes: Vec<Vec<u8>> = Vec::new();
    let l = LanguageDef {
        name: "Perl",
        regions,
        interest_bytes: vec![10u8, 34u8, 35u8, 39u8, 61u8],
        default_mode: DefaultMode::Code,
        structured_format: StructuredFormat::Text,
        leading_doc_prefixes: prefixes,
    };
    assert(l@ =~~= perl_view());
    l
}

/// Pest.
pub open spec fn pest_view() -> LanguageView {
    LanguageView {
        name: "Pest",
        regions: seq![comment_view(seq![47u8, 47u8], seq![10u8], false, false), string_view(seq![34u8], seq![34u8], true), string_view(seq![39u8], seq![39u8], true)],
        interest_bytes: seq![10u8, 34u8, 39u8, 47u8],
        default_mode: DefaultMode::Code,
        structured_format: StructuredFormat::Text,
        leading_doc_prefixes: seq![],
    }
}

/// Pest (// ... newline; " ... "; ' ... ').
fn define_pest() -> (l: LanguageDef)
    ensures
        l@ == pest_view(),
{
    let mut regions: Vec<Region> = Vec::new();
    regions.push(comment_region(vec![47u8, 47u8], vec![10u8], false, false));
    regions.push(string_region(vec![34u8], vec![34u8], true));
    regions.push(string_region(vec![39u8], vec![39u8], true));
    let mut prefixes: Vec<Vec<u8>> = Vec::new();
    let l = LanguageDef {
        name: "Pest",
        regions,
        interest_bytes: vec![10u8, 34u8, 39u8, 47u8],
        default_mode: DefaultMode::Code,
        structured_format: StructuredFormat::Text,
        leading_doc_prefixes: prefixes,
    };
    assert(l@ =~~= pest_view());
    l
}

/// Plain Text.
pub open spec fn plain_text_view() -> LanguageView {
    LanguageView {
        name: "Plain Text",
        regions: seq![],
        interest_bytes: seq![10u8],
        default_mode: DefaultMode::Comment,
        structured_format: StructuredFormat::Text,
        leading_doc_prefixes: seq![],
    }
}

/// Plain Text (no regions).
fn define_plain_text() -> (l: LanguageDef)
    ensures
        l@ == plain_text_view(),
{
    let mut regions: Vec<Region> = Vec::new();
    let mut prefixes: Vec<Vec<u8>> = Vec::new();
    let l = LanguageDef {
        name: "Plain Text",
        regions,
        interest_bytes: vec![10u8],
        default_mode: DefaultMode::Comment,
        structured_format: StructuredFormat::Text,
        leading_doc_prefixes: prefixes,
    };
    assert(l@ =~~= plain_text_view());
    l
}

/// Polly.
pub open spec fn polly_view() -> LanguageView {
    LanguageView {
        name: "Polly",
        regions: seq![comment_view(seq![60u8, 33u8, 45u8, 45u8], seq![45u8, 45u8, 62u8], false, false), string_view(seq![34u8], seq![34u8], true), string_view(seq![39u8], seq![39u8], true)],
        interest_bytes: seq![10u8, 34u8, 39u8, 60u8],
        default_mode: DefaultMode::Code,
        structured_format: StructuredFormat::Text,
        leading_doc_prefixes: seq![],
    }
}

/// Polly (<!-- ... -->; " ... "; ' ... ').
fn define_polly() -> (l: LanguageDef)
    ensures
        l@ == polly_view(),
{
    let mut regions: Vec<Region> = Vec::new();
    regions.push(comment_region(vec![60u8, 33u8, 45u8, 45u8], vec![45u8, 45u8, 62u8], false, false));
    regions.push(string_region(vec![34u8], vec![34u8], true));
    regions.push(string_region(vec![39u8], vec![39u8], true));
    let mut prefixes: Vec<Vec<u8>> = Vec::new();
    let l = LanguageDef {
        name: "Polly",
        regions,
        interest_bytes: vec![10u8, 34u8, 39u8, 60u8],
        default_mode: DefaultMode::Code,
        structured_format: StructuredFormat::Text,
        leading_doc_prefixes: prefixes,
    };
    assert(l@ =~~= polly_view());
    l
}

/// Pony.
pub open spec fn pony_view() -> LanguageView {
    LanguageView {
        name: "Pony",
        regions: seq![string_view(seq![34u8, 34u8, 34u8], seq![34u8, 34u8, 34u8], true), comment_view(seq![47u8, 47u8], seq![10u8], false, false), comment_view(seq![47u8, 42u8], seq![42u8, 47u8], false, false), string_view(seq![34u8], seq![34u8], true)],
        interest_bytes: seq![10u8, 34u8, 47u8],
        default_mode: DefaultMode::Code,
        structured_format: StructuredFormat::Text,
        leading_doc_prefixes: seq![],
    }
}

/// Pony (""" ... """; // ... newline; /* ... */; " ... ").
fn define_pony() -> (l: LanguageDef)
    ensures
        l@ == pony_view(),
{
    let mut regions: Vec<Region> = Vec::new();
    regions.push(string_region(vec![34u8, 34u8, 34u8], vec![34u8, 34u8, 34u8], true));
    regions.push(comment_region(vec![47u8, 47u8], vec![10u8], false, false));
    regions.push(comment_region(vec![47u8, 42u8], vec![42u8, 47u8], false, false));
    regions.push(string_region(vec![34u8], vec![34u8], true));
    let mut prefixes: Vec<Vec<u8>> = Vec::new();
    let l = LanguageDef {
        name: "Pony",
        regions,
        interest_bytes: vec![10u8, 34u8, 47u8],
        default_mode: DefaultMode::Code,
        structured_format: StructuredFormat::Text,
        leading_doc_prefixes: prefixes,
    };
    assert(l@ =~~= pony_view());
    l
}

/// PostCSS.
pub open spec fn postcss_view() -> LanguageView {
    LanguageView {
        name: "PostCSS",
        regions: seq![comment_view(seq![47u8, 47u8], seq![10u8], false, false), comment_view(seq![47u8, 42u8], seq![42u8, 47u8], false, false), string_view(seq![34u8], seq![34u8], true), string_view(seq![39u8], seq![39u8], true)],
        interest_bytes: seq![10u8, 34u8, 39u8, 47u8],
        default_mode: DefaultMode::Code,
        structured_format: StructuredFormat::Text,
        leading_doc_prefixes: seq![],
    }
}

/// PostCSS (// ... newline; /* ... */; " ... "; ' ... ').
fn define_postcss() -> (l: LanguageDef)
    ensures
        l@ == postcss_view(),
{
    let mut regions: Vec<Region> = Vec::new();
    regions.push(comment_region(vec![47u8, 47u8], vec![10u8], false, false));
    regions.push(comment_region(vec![47u8, 42u8], vec![42u8, 47u8], false, false));
    regions.push(string_region(vec![34u8], vec![34u8], true));
    regions.push(string_region(vec![39u8], vec![39u8], true));
    let mut prefixes: Vec<Vec<u8>> = Vec::new();
    let l = LanguageDef {
        name: "PostCSS",
        regions,
        interest_bytes: vec![10u8, 34u8, 39u8, 47u8],
        default_mode: DefaultMode::Code,
        structured_format: StructuredFormat::Text,
        leading_doc_prefixes: prefixes,
    };
    assert(l@ =~~= postcss_view());
    l
}

/// PowerShell.
pub open spec fn powershell_view() -> LanguageView {
    LanguageView {
        name: "PowerShell",
        regions: seq![comment_view(seq![60u8, 35u8], seq![35u8, 62u8], false, false), string_view(seq![34u8, 64u8], seq![64u8, 34u8], true), string_view(seq![64u8, 39u8], seq![39u8, 64u8], true), comment_view(seq![35u8], seq![10u8], false, false), string_view(seq![34u8], seq![34u8], true), string_view(seq![39u8], seq![39u8], true)],
        interest_bytes: seq![10u8, 34u8, 35u8, 39u8, 60u8, 64u8],
        default_mode: DefaultMode::Code,
        structured_format: StructuredFormat::Text,
        leading_doc_prefixes: seq![],
    }
}

/// PowerShell (<# ... #>; "@ ... @"; @' ... '@; # ... newline; " ... "; ' ... ').
fn define_powershell() -> (l: LanguageDef)
    ensures
        l@ == powershell_view(),
{
    let mut regions: Vec<Region> = Vec::new();
    regions.push(comment_region(vec![60u8, 35u8], vec![35u8, 62u8], false, false));
    regions.push(string_region(vec![34u8, 64u8], vec![64u8, 34u8], true));
    regions.push(string_region(vec![64u8, 39u8], vec![39u8, 64u8], true));
    regions.push(comment_region(vec![35u8], vec![10u8], false, false));
    regions.push(string_region(vec![34u8], vec![34u8], true));
    regions.push(string_region(vec![39u8], vec![39u8], true));
    let mut prefixes: Vec<Vec<u8>> = Vec::new();
    let l = LanguageDef {
        name: "PowerShell",
        regions,
        interest_bytes: vec![10u8, 34u8, 35u8, 39u8, 60u8, 64u8],
        default_mode: DefaultMode::Code,
        structured_format: StructuredFormat::Text,
        leading_doc_prefixes: prefixes,
    };
    assert(l@ =~~= powershell_view());
    l
}

/// Processing.
pub open spec fn processing_view() -> LanguageView {
    LanguageView {
        name: "Processing",
        regions: seq![comment_view(seq![47u8, 47u8], seq![10u8], false, false), comment_view(seq![47u8, 42u8], seq![42u8, 47u8], false, false), string_view(seq![34u8], seq![34u8], true)],
        interest_bytes: seq![10u8, 34u8, 47u8],
        default_mode: DefaultMode::Code,
        structured_format: StructuredFormat::Text,
        leading_doc_prefixes: seq![],
    }
}

/// Processing (// ... newline; /* ... */; " ... ").
fn define_processing() -> (l: LanguageDef)
    ensures
        l@ == processing_view(),
{
    let mut regions: Vec<Region> = Vec::new();
    regions.push(comment_region(vec![47u8, 47u8], vec![10u8], false, false));
    regions.push(comment_region(vec![47u8, 42u8], vec![42u8, 47u8], false, false));
    regions.push(string_region(vec![34u8], vec![34u8], true));
    let mut prefixes: Vec<Vec<u8>> = Vec::new();
    let l = LanguageDef {
        name: "Processing",
        regions,
        interest_bytes: vec![10u8, 34u8, 47u8],
        default_mode: DefaultMode::Code,
        structured_format: StructuredFormat::Text,
        leading_doc_prefixes: prefixes,
    };
    assert(l@ =~~= processing_view());
    l
}

/// Prolog.
pub open spec fn prolog_view() -> LanguageView {
    LanguageView {
        name: "Prolog",
        regions: seq![comment_view(seq![47u8, 42u8], seq![42u8, 47u8], false, false), comment_view(seq![37u8], seq![10u8], false, false), string_view(seq![34u8], seq![34u8], true)],
        interest_bytes: seq![10u8, 34u8, 37u8, 47u8],
        default_mode: DefaultMode::Code,
        structured_format: StructuredFormat::Text,
        leading_doc_prefixes: seq![],
    }
}

/// Prolog (/* ... */; % ... newline; " ... ").
fn define_prolog() -> (l: LanguageDef)
    ensures
        l@ == prolog_view(),
{
    let mut regions: Vec<Region> = Vec::new();
    regions.push(comment_region(vec![47u8, 42u8], vec![42u8, 47u8], false, false));
    regions.push(comment_region(vec![37u8], vec![10u8], false, false));
    regions.push(string_region(vec![34u8], vec![34u8], true));
    let mut prefixes: Vec<Vec<u8>> = Vec::new();
    let l = LanguageDef {
        name: "Prolog",
        regions,
        interest_bytes: vec![10u8, 34u8, 37u8, 47u8],
        default_mode: DefaultMode::Code,
        structured_format: StructuredFormat::Text,
        leading_doc_prefixes: prefixes,
    };
    assert(l@ =~~= prolog_view());
    l
}

/// Protocol Buffers.
pub open spec fn protocol_buffers_view() -> LanguageView {
    LanguageView {
        name: "Protocol Buffers",
        regions: seq![comment_view(seq![47u8, 47u8], seq![10u8], false, false)],
        interest_bytes: seq![10u8, 47u8],
        default_mode: DefaultMode::Code,
        structured_format: StructuredFormat::Text,
        leading_doc_prefixes: seq![],
    }
}

/// Protocol Buffers (// ... newline).
fn define_protocol_buffers() -> (l: LanguageDef)
    ensures
        l@ == protocol_buffers_view(),
{
    let mut regions: Vec<Region> = Vec::new();
    regions.push(comment_region(vec![47u8, 47u8], vec![10u8], false, false));
    let mut prefixes: Vec<Vec<u8>> = Vec::new();
    let l = LanguageDef {
        name: "Protocol Buffers",
        regions,
        interest_bytes: vec![10u8, 47u8],
        default_mode: DefaultMode::Code,
        structured_format: StructuredFormat::Text,
        leading_doc_prefixes: prefixes,
    };
    assert(l@ =~~= protocol_buffers_view());
    l
}

/// Pug.
pub open spec fn pug_view() -> LanguageView {
    LanguageView {
        name: "Pug",
        regions: seq![comment_view(seq![47u8, 47u8, 45u8], seq![10u8], false, false), string_view(seq![35u8, 123u8, 34u8], seq![34u8, 125u8], true), string_view(seq![35u8, 123u8, 39u8], seq![39u8, 125u8], true), string_view(seq![35u8, 123u8, 96u8], seq![96u8, 125u8], true), comment_view(seq![47u8, 47u8], seq![10u8], false, false)],
        interest_bytes: seq![10u8, 35u8, 47u8],
        default_mode: DefaultMode::Code,
        structured_format: StructuredFormat::Text,
        leading_doc_prefixes: seq![],
    }
}

/// Pug (//- ... newline; #{" ... "}; #{' ... '}; #{' ... '}; // ... newline).
fn define_pug() -> (l: LanguageDef)
    ensures
        l@ == pug_view(),
{
    let mut regions: Vec<Region> = Vec::new();
    regions.push(comment_region(vec![47u8, 47u8, 45u8], vec![10u8], false, false));
    regions.push(string_region(vec![35u8, 123u8, 34u8], vec![34u8, 125u8], true));
    regions.push(string_region(vec![35u8, 123u8, 39u8], vec![39u8, 125u8], true));
    regions.push(string_region(vec![35u8, 123u8, 96u8], vec![96u8, 125u8], true));
    regions.push(comment_region(vec![47u8, 47u8], vec![10u8], false, false));
    let mut prefixes: Vec<Vec<u8>> = Vec::new();
    let l = LanguageDef {
        name: "Pug",
        regions,
        interest_bytes: vec![10u8, 35u8, 47u8],
        default_mode: DefaultMode::Code,
        structured_format: StructuredFormat::Text,
        leading_doc_prefixes: prefixes,
    };
    assert(l@ =~~= pug_view());
    l
}

/// PureScript.
pub open spec fn purescript_view() -> LanguageView {
    LanguageView {
        name: "PureScript",
        regions: seq![comment_view(seq![45u8, 45u8], seq![10u8], false, false), comment_view(seq![123u8, 45u8], seq![45u8, 125u8], true, false)],
        interest_bytes: seq![10u8, 45u8, 123u8],
        default_mode: DefaultMode::Code,
        structured_format: StructuredFormat::Text,
        leading_doc_prefixes: seq![],
    }
}

/// PureScript (-- ... newline; {- ... -}).
fn define_purescript() -> (l: LanguageDef)
    ensures
        l@ == purescript_view(),
{
    let mut regions: Vec<Region> = Vec::new();
    regions.push(comment_region(vec![45u8, 45u8], vec![10u8], false, false));
    regions.push(comment_region(vec![123u8, 45u8], vec![45u8, 125u8], true, false));
    let mut prefixes: Vec<Vec<u8>> = Vec::new();
    let l = LanguageDef {
        name: "PureScript",
        regions,
        interest_bytes: vec![10u8, 45u8, 123u8],
        default_mode: DefaultMode::Code,
        structured_format: StructuredFormat::Text,
        leading_doc_prefixes: prefixes,
    };
    assert(l@ =~~= purescript_view());
    l
}

/// Python.
pub open spec fn python_view() -> LanguageView {
    LanguageView {
        name: "Python",
        regions: seq![string_view(seq![34u8, 34u8, 34u8], seq![34u8, 34u8, 34u8], true), string_view(seq![39u8, 39u8, 39u8], seq![39u8, 39u8, 39u8], true), comment_view(seq![35u8], seq![10u8], false, false), string_view(seq![34u8], seq![34u8], true), string_view(seq![39u8], seq![39u8], true)],
        interest_bytes: seq![10u8, 34u8, 35u8, 39u8],
        default_mode: DefaultMode::Code,
        structured_format: StructuredFormat::Text,
        leading_doc_prefixes: seq![],
    }
}

/// Python (""" ... """; ''' ... '''; # ... newline; " ... "; ' ... ').
fn define_python() -> (l: LanguageDef)
    ensures
        l@ == python_view(),
{
    let mut regions: Vec<Region> = Vec::new();
    regions.push(string_region(vec![34u8, 34u8, 34u8], vec![34u8, 34u8, 34u8], true));
    regions.push(string_region(vec![39u8, 39u8, 39u8], vec![39u8, 39u8, 39u8], true));
    regions.push(comment_region(vec![35u8], vec![10u8], false, false));
    regions.push(string_region(vec![34u8], vec![34u8], true));
    regions.push(string_region(vec![39u8], vec![39u8], true));
    let mut prefixes: Vec<Vec<u8>> = Vec::new();
    let l = LanguageDef {
        name: "Python",
        regions,
        interest_bytes: vec![10u8, 34u8, 35u8, 39u8],
        default_mode: DefaultMode::Code,
        structured_format: StructuredFormat::Text,
        leading_doc_prefixes: prefixes,
    };
    assert(l@ =~~= python_view());
    l
}

/// Q.
pub open spec fn q_view() -> LanguageView {
    LanguageView {
        name: "Q",
        regions: seq![comment_view(seq![47u8], seq![10u8], false, false), string_view(seq![34u8], seq![34u8], true)],
        interest_bytes: seq![10u8, 34u8, 47u8],
        default_mode: DefaultMode::Code,
        structured_format: StructuredFormat::Text,
        leading_doc_prefixes: seq![],
    }
}

/// Q (/ ... newline; " ... ").
fn define_q() -> (l: LanguageDef)
    ensures
        l@ == q_view(),
{
    let mut regions: Vec<Region> = Vec::new();
    regions.push(comment_region(vec![47u8], vec![10u8], false, false));
    regions.push(string_region(vec![34u8], vec![34u8], true));
    let mut prefixes: Vec<Vec<u8>> = Vec::new();
    let l = LanguageDef {
        name: "Q",
        regions,
        interest_bytes: vec![10u8, 34u8, 47u8],
        default_mode: DefaultMode::Code,
        structured_format: StructuredFormat::Text,
        leading_doc_prefixes: prefixes,
    };
    assert(l@ =~~= q_view());
    l
}

/// QCL.
pub open spec fn qcl_view() -> LanguageView {
    LanguageView {
        name: "QCL",
        regions: seq![comment_view(seq![47u8, 47u8], seq![10u8], false, false), comment_view(seq![47u8, 42u8], seq![42u8, 47u8], false, false), string_view(seq![34u8], seq![34u8], true)],
        interest_bytes: seq![10u8, 34u8, 47u8],
        default_mode: DefaultMode::Code,
        structured_format: StructuredFormat::Text,
        leading_doc_prefixes: seq![],
    }
}

/// QCL (// ... newline; /* ... */; " ... ").
fn define_qcl() -> (l: LanguageDef)
    ensures
        l@ == qcl_view(),
{
    let mut regions: Vec<Region> = Vec::new();
    regions.push(comment_region(vec![47u8, 47u8], vec![10u8], false, false));
    regions.push(comment_region(vec![47u8, 42u8], vec![42u8, 47u8], false, false));
    regions.push(string_region(vec![34u8], vec![34u8], true));
    let mut prefixes: Vec<Vec<u8>> = Vec::new();
    let l = LanguageDef {
        name: "QCL",
        regions,
        interest_bytes: vec![10u8, 34u8, 47u8],
        default_mode: DefaultMode::Code,
        structured_format: StructuredFormat::Text,
        leading_doc_prefixes: prefixes,
    };
    assert(l@ =~~= qcl_view());
    l
}

/// QML.
pub open spec fn qml_view() -> LanguageView {
    LanguageView {
        name: "QML",
        regions: seq![comment_view(seq![47u8, 47u8], seq![10u8], false, false), comment_view(seq![47u8, 42u8], seq![42u8, 47u8], false, false), string_view(seq![34u8], seq![34u8], true), string_view(seq![39u8], seq![39u8], true)],
        interest_bytes: seq![10u8, 34u8, 39u8, 47u8],
        default_mode: DefaultMode::Code,
        structured_format: StructuredFormat::Text,
        leading_doc_prefixes: seq![],
    }
}

/// QML (// ... newline; /* ... */; " ... "; ' ... ').
fn define_qml() -> (l: LanguageDef)
    ensures
        l@ == qml_view(),
{
    let mut regions: Vec<Region> = Vec::new();
    regions.push(comment_region(vec![47u8, 47u8], vec![10u8], false, false));
    regions.push(comment_region(vec![47u8, 42u8], vec![42u8, 47u8], false, false));
    regions.push(string_region(vec![34u8], vec![34u8], true));
    regions.push(string_region(vec![39u8], vec![39u8], true));
    let mut prefixes: Vec<Vec<u8>> = Vec::new();
    let l = LanguageDef {
        name: "QML",
        regions,
        interest_bytes: vec![10u8, 34u8, 39u8, 47u8],
        default_mode: DefaultMode::Code,
        structured_format: StructuredFormat::Text,
        leading_doc_prefixes: prefixes,
    };
    assert(l@ =~~= qml_view());
    l
}

/// R.
pub open spec fn r_view() -> LanguageView {
    LanguageView {
        name: "R",
        regions: seq![comment_view(seq![35u8], seq![10u8], false, false)],
        interest_bytes: seq![10u8, 35u8],
        default_mode: DefaultMode::Code,
        structured_format: StructuredFormat::Text,
        leading_doc_prefixes: seq![],
    }
}

/// R (# ... newline).
fn define_r() -> (l: LanguageDef)
    ensures
        l@ == r_view(),
{
    let mut regions: Vec<Region> = Vec::new();
    regions.push(comment_region(vec![35u8], vec![10u8], false, false));
    let mut prefixes: Vec<Vec<u8>> = Vec::new();
    let l = LanguageDef {
        name: "R",
        regions,
        interest_bytes: vec![10u8, 35u8],
        default_mode: DefaultMode::Code,
        structured_format: StructuredFormat::Text,
        leading_doc_prefixes: prefixes,
    };
    assert(l@ =~~= r_view());
    l
}

/// RPM Specfile.
pub open spec fn rpm_specfile_view() -> LanguageView {
    LanguageView {
        name: "RPM Specfile",
        regions: seq![comment_view(seq![35u8], seq![10u8], false, false)],
        interest_bytes: seq![10u8, 35u8],
        default_mode: DefaultMode::Code,
        structured_format: StructuredFormat::Text,
        leading_doc_prefixes: seq![],
    }
}

/// RPM Specfile (# ... newline).
fn define_rpm_specfile() -> (l: LanguageDef)
    ensures
        l@ == rpm_specfile_view(),
{
    let mut regions: Vec<Region> = Vec::new();
    regions.push(comment_region(vec![35u8], vec![10u8], false, false));
    let mut prefixes: Vec<Vec<u8>> = Vec::new();
    let l = LanguageDef {
        name: "RPM Specfile",
        regions,
        interest_bytes: vec![10u8, 35u8],
        default_mode: DefaultMode::Code,
        structured_format: StructuredFormat::Text,
        leading_doc_prefixes: prefixes,
    };
    assert(l@ =~~= rpm_specfile_view());
    l
}

/// Racket.
pub open spec fn racket_view() -> LanguageView {
    LanguageView {
        name: "Racket",
        regions: seq![comment_view(seq![35u8, 124u8], seq![124u8, 35u8], true, false), comment_view(seq![59u8], seq![10u8], false, false)],
        interest_bytes: seq![10u8, 35u8, 59u8],
        default_mode: DefaultMode::Code,
        structured_format: StructuredFormat::Text,
        leading_doc_prefixes: seq![],
    }
}

/// Racket (#| ... |#; ; ... newline).
fn define_racket() -> (l: LanguageDef)
    ensures
        l@ == racket_view(),
{
    let mut regions: Vec<Region> = Vec::new();
    regions.push(comment_region(vec![35u8, 124u8], vec![124u8, 35u8], true, false));
    regions.push(comment_region(vec![59u8], vec![10u8], false, false));
    let mut prefixes: Vec<Vec<u8>> = Vec::new();
    let l = LanguageDef {
        name: "Racket",
        regions,
        interest_bytes: vec![10u8, 35u8, 59u8],
        default_mode: DefaultMode::Code,
        structured_format: StructuredFormat::Text,
        leading_doc_prefixes: prefixes,
    };
    assert(l@ =~~= racket_view());
    l
}

/// Rakefile.
pub open spec fn rakefile_view() -> LanguageView {
    LanguageView {
        name: "Rakefile",
        regions: seq![comment_view(seq![61u8, 98u8, 101u8, 103u8, 105u8, 110u8], seq![61u8, 101u8, 110u8, 100u8], false, false), comment_view(seq![35u8], seq![10u8], false, false), string_view(seq![34u8], seq![34u8], true), string_view(seq![39u8], seq![39u8], true)],
        interest_bytes: seq![10u8, 34u8, 35u8, 39u8, 61u8],
        default_mode: DefaultMode::Code,
        structured_format: StructuredFormat::Text,
        leading_doc_prefixes: seq![],
    }
}

/// Rakefile (=begin ... =end; # ... newline; " ... "; ' ... ').
fn define_rakefile() -> (l: LanguageDef)
    ensures
        l@ == rakefile_view(),
{
    let mut regions: Vec<Region> = Vec::new();
    regions.push(comment_region(vec![61u8, 98u8, 101u8, 103u8, 105u8, 110u8], vec![61u8, 101u8, 110u8, 100u8], false, false));
    regions.push(comment_region(vec![35u8], vec![10u8], false, false));
    regions.push(string_region(vec![34u8], vec![34u8], true));
    regions.push(string_region(vec![39u8], vec![39u8], true));
    let mut prefixes: Vec<Vec<u8>> = Vec::new();
    let l = LanguageDef {
        name: "Rakefile",
        regions,
        interest_bytes: vec![10u8, 34u8, 35u8, 39u8, 61u8],
        default_mode: DefaultMode::Code,
        structured_format: StructuredFormat::Text,
        leading_doc_prefixes: prefixes,
    };
    assert(l@ =~~= rakefile_view());
    l
}

/// Rakudo.
pub open spec fn rakudo_view() -> LanguageView {
    LanguageView {
        name: "Rakudo",
        regions: seq![comment_view(seq![61u8, 98u8, 101u8, 103u8, 105u8, 110u8], seq![61u8, 101u8, 110u8, 100u8], false, false), comment_view(seq![35u8], seq![10u8], false, false), string_view(seq![34u8], seq![34u8], true), string_view(seq![39u8], seq![39u8], true)],
        interest_bytes: seq![10u8, 34u8, 35u8, 39u8, 61u8],
        default_mode: DefaultMode::Code,
        structured_format: StructuredFormat::Text,
        leading_doc_prefixes: seq![],
    }
}

/// Rakudo (=begin ... =end; # ... newline; " ... "; ' ... ').
fn define_rakudo() -> (l: LanguageDef)
    ensures
        l@ == rakudo_view(),
{
    let mut regions: Vec<Region> = Vec::new();
    regions.push(comment_region(vec![61u8, 98u8, 101u8, 103u8, 105u8, 110u8], vec![61u8, 101u8, 110u8, 100u8], false, false));
    regions.push(comment_region(vec![35u8], vec![10u8], false, false));
    regions.push(string_region(vec![34u8], vec![34u8], true));
    regions.push(string_region(vec![39u8], vec![39u8], true));
    let mut prefixes: Vec<Vec<u8>> = Vec::new();
    let l = LanguageDef {
        name: "Rakudo",
        regions,
        interest_bytes: vec![10u8, 34u8, 35u8, 39u8, 61u8],
        default_mode: DefaultMode::Code,
        structured_format: StructuredFormat::Text,
        leading_doc_prefixes: prefixes,
    };
    assert(l@ =~~= rakudo_view());
    l
}

/// Razor.
pub open spec fn razor_view() -> LanguageView {
    LanguageView {
        name: "Razor",
        regions: seq![comment_view(seq![60u8, 33u8, 45u8, 45u8], seq![45u8, 45u8, 62u8], false, false), comment_view(seq![64u8, 42u8], seq![42u8, 64u8], false, false)],
        interest_bytes: seq![10u8, 60u8, 64u8],
        default_mode: DefaultMode::Code,
        structured_format: StructuredFormat::Text,
        leading_doc_prefixes: seq![],
    }
}

/// Razor (<!-- ... -->; @* ... *@).
fn define_razor() -> (l: LanguageDef)
    ensures
        l@ == razor_view(),
{
    let mut regions: Vec<Region> = Vec::new();
    regions.push(comment_region(vec![60u8, 33u8, 45u8, 45u8], vec![45u8, 45u8, 62u8], false, false));
    regions.push(comment_region(vec![64u8, 42u8], vec![42u8, 64u8], false, false));
    let mut prefixes: Vec<Vec<u8>> = Vec::new();
    let l = LanguageDef {
        name: "Razor",
        regions,
        interest_bytes: vec![10u8, 60u8, 64u8],
        default_mode: DefaultMode::Code,
        structured_format: StructuredFormat::Text,
        leading_doc_prefixes: prefixes,
    };
    assert(l@ =~~= razor_view());
    l
}

/// ReStructuredText.
pub open spec fn restructuredtext_view() -> LanguageView {
    LanguageView {
        name: "ReStructuredText",
        regions: seq![],
        interest_bytes: seq![10u8],
        default_mode: DefaultMode::Code,
        structured_format: StructuredFormat::Text,
        leading_doc_prefixes: seq![],
    }
}

/// ReStructuredText (no regions).
fn define_restructuredtext() -> (l: LanguageDef)
    ensures
        l@ == restructuredtext_view(),
{
    let mut regions: Vec<Region> = Vec::new();
    let mut prefixes: Vec<Vec<u8>> = Vec::new();
    let l = LanguageDef {
        name: "ReStructuredText",
        regions,
        interest_bytes: vec![10u8],
        default_mode: DefaultMode::Code,
        structured_format: StructuredFormat::Text,
        leading_doc_prefixes: prefixes,
    };
    assert(l@ =~~= restructuredtext_view());
    l
}

/// Ren'Py.
pub open spec fn ren_py_view() -> LanguageView {
    LanguageView {
        name: "Ren'Py",
        regions: seq![comment_view(seq![35u8], seq![10u8], false, false), string_view(seq![34u8], seq![34u8], true), string_view(seq![39u8], seq![39u8], true), string_view(seq![96u8], seq![96u8], true)],
        interest_bytes: seq![10u8, 34u8, 35u8, 39u8, 96u8],
        default_mode: DefaultMode::Code,
        structured_format: StructuredFormat::Text,
        leading_doc_prefixes: seq![],
    }
}

/// Ren'Py (# ... newline; " ... "; ' ... '; ' ... ').
fn define_ren_py() -> (l: LanguageDef)
    ensures
        l@ == ren_py_view(),
{
    let mut regions: Vec<Region> = Vec::new();
    regions.push(comment_region(vec![35u8], vec![10u8], false, false));
    regions.push(string_region(vec![34u8], vec![34u8], true));
    regions.push(string_region(vec![39u8], vec![39u8], true));
    regions.push(string_region(vec![96u8], vec![96u8], true));
    let mut prefixes: Vec<Vec<u8>> = Vec::new();
    let l = LanguageDef {
        name: "Ren'Py",
        regions,
        interest_bytes: vec![10u8, 34u8, 35u8, 39u8, 96u8],
        default_mode: DefaultMode::Code,
        structured_format: StructuredFormat::Text,
        leading_doc_prefixes: prefixes,
    };
    assert(l@ =~~= ren_py_view());
    l
}

/// Ruby.
pub open spec fn ruby_view() -> LanguageView {
    LanguageView {
        name: "Ruby",
        regions: seq![comment_view(seq![61u8, 98u8, 101u8, 103u8, 105u8, 110u8], seq![61u8, 101u8, 110u8, 100u8], false, false), comment_view(seq![35u8], seq![10u8], false, false), string_view(seq![34u8], seq![34u8], true), string_view(seq![39u8], seq![39u8], true)],
        interest_bytes: seq![10u8, 34u8, 35u8, 39u8, 61u8],
        default_mode: DefaultMode::Code,
        structured_format: StructuredFormat::Text,
        leading_doc_prefixes: seq![],
    }
}

/// Ruby (=begin ... =end; # ... newline; " ... "; ' ... ').
fn define_ruby() -> (l: LanguageDef)
    ensures
        l@ == ruby_view(),
{
    let mut regions: Vec<Region> = Vec::new();
    regions.push(comment_region(vec![61u8, 98u8, 101u8, 103u8, 105u8, 110u8], vec![61u8, 101u8, 110u8, 100u8], false, false));
    regions.push(comment_region(vec![35u8], vec![10u8], false, false));
    regions.push(string_region(vec![34u8], vec![34u8], true));
    regions.push(string_region(vec![39u8], vec![39u8], true));
    let mut prefixes: Vec<Vec<u8>> = Vec::new();
    let l = LanguageDef {
        name: "Ruby",
        regions,
        interest_bytes: vec![10u8, 34u8, 35u8, 39u8, 61u8],
        default_mode: DefaultMode::Code,
        structured_format: StructuredFormat::Text,
        leading_doc_prefixes: prefixes,
    };
    assert(l@ =~~= ruby_view());
    l
}

/// Ruby HTML.
pub open spec fn ruby_html_view() -> LanguageView {
    LanguageView {
        name: "Ruby HTML",
        regions: seq![comment_view(seq![60u8, 33u8, 45u8, 45u8], seq![45u8, 45u8, 62u8], false, false), string_view(seq![34u8], seq![34u8], true), string_view(seq![39u8], seq![39u8], true)],
        interest_bytes: seq![10u8, 34u8, 39u8, 60u8],
        default_mode: DefaultMode::Code,
        structured_format: StructuredFormat::Text,
        leading_doc_prefixes: seq![],
    }
}

/// Ruby HTML (<!-- ... -->; " ... "; ' ... ').
fn define_ruby_html() -> (l: LanguageDef)
    ensures
        l@ == ruby_html_view(),
{
    let mut regions: Vec<Region> = Vec::new();
    regions.push(comment_region(vec![60u8, 33u8, 45u8, 45u8], vec![45u8, 45u8, 62u8], false, false));
    regions.push(string_region(vec![34u8], vec![34u8], true));
    regions.push(string_region(vec![39u8], vec![39u8], true));
    let mut prefixes: Vec<Vec<u8>> = Vec::new();
    let l = LanguageDef {
        name: "Ruby HTML",
        regions,
        interest_bytes: vec![10u8, 34u8, 39u8, 60u8],
        default_mode: DefaultMode::Code,
        structured_format: StructuredFormat::Text,
        leading_doc_prefixes: prefixes,
    };
    assert(l@ =~~= ruby_html_view());
    l
}

/// Rust.
pub open spec fn rust_view() -> LanguageView {
    LanguageView {
        name: "Rust",
        regions: seq![string_view(seq![114u8, 35u8, 35u8, 34u8], seq![34u8, 35u8, 35u8], false), string_view(seq![114u8, 35u8, 34u8], seq![34u8, 35u8], false), comment_view(seq![47u8, 47u8], seq![10u8], false, false), comment_view(seq![47u8, 42u8], seq![42u8, 47u8], true, false), string_view(seq![114u8, 34u8], seq![34u8], false), string_view(seq![34u8], seq![34u8], true)],
        interest_bytes: seq![10u8, 34u8, 47u8, 114u8],
        default_mode: DefaultMode::Code,
        structured_format: StructuredFormat::Text,
        leading_doc_prefixes: seq![seq![47u8, 47u8, 33u8]],
    }
}

/// Rust (r##" ... "##; r#" ... "#; // ... newline; /* ... */; r" ... "; " ... ").
fn define_rust() -> (l: LanguageDef)
    ensures
        l@ == rust_view(),
{
    let mut regions: Vec<Region> = Vec::new();
    regions.push(string_region(vec![114u8, 35u8, 35u8, 34u8], vec![34u8, 35u8, 35u8], false));
    regions.push(string_region(vec![114u8, 35u8, 34u8], vec![34u8, 35u8], false));
    regions.push(comment_region(vec![47u8, 47u8], vec![10u8], false, false));
    regions.push(comment_region(vec![47u8, 42u8], vec![42u8, 47u8], true, false));
    regions.push(string_region(vec![114u8, 34u8], vec![34u8], false));
    regions.push(string_region(vec![34u8], vec![34u8], true));
    let mut prefixes: Vec<Vec<u8>> = Vec::new();
    prefixes.push(vec![47u8, 47u8, 33u8]);
    let l = LanguageDef {
        name: "Rust",
        regions,
        interest_bytes: vec![10u8, 34u8, 47u8, 114u8],
        default_mode: DefaultMode::Code,
        structured_format: StructuredFormat::Text,
        leading_doc_prefixes: prefixes,
    };
    assert(l@ =~~= rust_view());
    l
}

/// Rusty Object Notation.
pub open spec fn rusty_object_notation_view() -> LanguageView {
    LanguageView {
        name: "Rusty Object Notation",
        regions: seq![comment_view(seq![47u8, 47u8], seq![10u8], false, false), comment_view(seq![47u8, 42u8], seq![42u8, 47u8], true, false), string_view(seq![34u8], seq![34u8], true)],
        interest_bytes: seq![10u8, 34u8, 47u8],
        default_mode: DefaultMode::Code,
        structured_format: StructuredFormat::Text,
        leading_doc_prefixes: seq![],
    }
}

/// Rusty Object Notation (// ... newline; /* ... */; " ... ").
fn define_rusty_object_notation() -> (l: LanguageDef)
    ensures
        l@ == rusty_object_notation_view(),
{
    let mut regions: Vec<Region> = Vec::new();
    regions.push(comment_region(vec![47u8, 47u8], vec![10u8], false, false));
    regions.push(comment_region(vec![47u8, 42u8], vec![42u8, 47u8], true, false));
    regions.push(string_region(vec![34u8], vec![34u8], true));
    let mut prefixes: Vec<Vec<u8>> = Vec::new();
    let l = LanguageDef {
        name: "Rusty Object Notation",
        regions,
        interest_bytes: vec![10u8, 34u8, 47u8],
        default_mode: DefaultMode::Code,
        structured_format: StructuredFormat::Text,
        leading_doc_prefixes: prefixes,
    };
    assert(l@ =~~= rusty_object_notation_view());
    l
}

/// SQL.
pub open spec fn sql_view() -> LanguageView {
    LanguageView {
        name: "SQL",
        regions: seq![comment_view(seq![45u8, 45u8], seq![10u8], false, false), comment_view(seq![47u8, 42u8], seq![42u8, 47u8], false, false), string_view(seq![39u8], seq![39u8], true)],
        interest_bytes: seq![10u8, 39u8, 45u8, 47u8],
        default_mode: DefaultMode::Code,
        structured_format: StructuredFormat::Text,
        leading_doc_prefixes: seq![],
    }
}

/// SQL (-- ... newline; /* ... */; ' ... ').
fn define_sql() -> (l: LanguageDef)
    ensures
        l@ == sql_view(),
{
    let mut regions: Vec<Region> = Vec::new();
    regions.push(comment_region(vec![45u8, 45u8], vec![10u8], false, false));
    regions.push(comment_region(vec![47u8, 42u8], vec![42u8, 47u8], false, false));
    regions.push(string_region(vec![39u8], vec![39u8], true));
    let mut prefixes: Vec<Vec<u8>> = Vec::new();
    let l = LanguageDef {
        name: "SQL",
        regions,
        interest_bytes: vec![10u8, 39u8, 45u8, 47u8],
        default_mode: DefaultMode::Code,
        structured_format: StructuredFormat::Text,
        leading_doc_prefixes: prefixes,
    };
    assert(l@ =~~= sql_view());
    l
}

/// SRecode Template.
pub open spec fn srecode_template_view() -> LanguageView {
    LanguageView {
        name: "SRecode Template",
        regions: seq![comment_view(seq![59u8, 59u8], seq![10u8], false, false)],
        interest_bytes: seq![10u8, 59u8],
        default_mode: DefaultMode::Code,
        structured_format: StructuredFormat::Text,
        leading_doc_prefixes: seq![],
    }
}

/// SRecode Template (;; ... newline).
fn define_srecode_template() -> (l: LanguageDef)
    ensures
        l@ == srecode_template_view(),
{
    let mut regions: Vec<Region> = Vec::new();
    regions.push(comment_region(vec![59u8, 59u8], vec![10u8], false, false));
    let mut prefixes: Vec<Vec<u8>> = Vec::new();
    let l = LanguageDef {
        name: "SRecode Template",
        regions,
        interest_bytes: vec![10u8, 59u8],
        default_mode: DefaultMode::Code,
        structured_format: StructuredFormat::Text,
        leading_doc_prefixes: prefixes,
    };
    assert(l@ =~~= srecode_template_view());
    l
}

/// SVG.
pub open spec fn svg_view() -> LanguageView {
    LanguageView {
        name: "SVG",
        regions: seq![comment_view(seq![60u8, 33u8, 45u8, 45u8], seq![45u8, 45u8, 62u8], false, false), string_view(seq![34u8], seq![34u8], true), string_view(seq![39u8], seq![39u8], true)],
        interest_bytes: seq![10u8, 34u8, 39u8, 60u8],
        default_mode: DefaultMode::Code,
        structured_format: StructuredFormat::Text,
        leading_doc_prefixes: seq![],
    }
}

/// SVG (<!-- ... -->; " ... "; ' ... ').
fn define_svg() -> (l: LanguageDef)
    ensures
        l@ == svg_view(),
{
    let mut regions: Vec<Region> = Vec::new();
    regions.push(comment_region(vec![60u8, 33u8, 45u8, 45u8], vec![45u8, 45u8, 62u8], false, false));
    regions.push(string_region(vec![34u8], vec![34u8], true));
    regions.push(string_region(vec![39u8], vec![39u8], true));
    let mut prefixes: Vec<Vec<u8>> = Vec::new();
    let l = LanguageDef {
        name: "SVG",
        regions,
        interest_bytes: vec![10u8, 34u8, 39u8, 60u8],
        default_mode: DefaultMode::Code,
        structured_format: StructuredFormat::Text,
        leading_doc_prefixes: prefixes,
    };
    assert(l@ =~~= svg_view());
    l
}

/// SWIG.
pub open spec fn swig_view() -> LanguageView {
    LanguageView {
        name: "SWIG",
        regions: seq![comment_view(seq![47u8, 47u8], seq![10u8], false, false), comment_view(seq![47u8, 42u8], seq![42u8, 47u8], true, false), string_view(seq![34u8], seq![34u8], true)],
        interest_bytes: seq![10u8, 34u8, 47u8],
        default_mode: DefaultMode::Code,
        structured_format: StructuredFormat::Text,
        leading_doc_prefixes: seq![],
    }
}

/// SWIG (// ... newline; /* ... */; " ... ").
fn define_swig() -> (l: LanguageDef)
    ensures
        l@ == swig_view(),
{
    let mut regions: Vec<Region> = Vec::new();
    regions.push(comment_region(vec![47u8, 47u8], vec![10u8], false, false));
    regions.push(comment_region(vec![47u8, 42u8], vec![42u8, 47u8], true, false));
    regions.push(string_region(vec![34u8], vec![34u8], true));
    let mut prefixes: Vec<Vec<u8>> = Vec::new();
    let l = LanguageDef {
        name: "SWIG",
        regions,
        interest_bytes: vec![10u8, 34u8, 47u8],
        default_mode: DefaultMode::Code,
        structured_format: StructuredFormat::Text,
        leading_doc_prefixes: prefixes,
    };
    assert(l@ =~~= swig_view());
    l
}

/// Sass.
pub open spec fn sass_view() -> LanguageView {
    LanguageView {
        name: "Sass",
        regions: seq![comment_view(seq![47u8, 47u8], seq![10u8], false, false), comment_view(seq![47u8, 42u8], seq![42u8, 47u8], false, false), string_view(seq![34u8], seq![34u8], true), string_view(seq![39u8], seq![39u8], true)],
        interest_bytes: seq![10u8, 34u8, 39u8, 47u8],
        default_mode: DefaultMode::Code,
        structured_format: StructuredFormat::Text,
        leading_doc_prefixes: seq![],
    }
}

/// Sass (// ... newline; /* ... */; " ... "; ' ... ').
fn define_sass() -> (l: LanguageDef)
    ensures
        l@ == sass_view(),
{
    let mut regions: Vec<Region> = Vec::new();
    regions.push(comment_region(vec![47u8, 47u8], vec![10u8], false, false));
    regions.push(comment_region(vec![47u8, 42u8], vec![42u8, 47u8], false, false));
    regions.push(string_region(vec![34u8], vec![34u8], true));
    regions.push(string_region(vec![39u8], vec![39u8], true));
    let mut prefixes: Vec<Vec<u8>> = Vec::new();
    let l = LanguageDef {
        name: "Sass",
        regions,
        interest_bytes: vec![10u8, 34u8, 39u8, 47u8],
        default_mode: DefaultMode::Code,
        structured_format: StructuredFormat::Text,
        leading_doc_prefixes: prefixes,
    };
    assert(l@ =~~= sass_view());
    l
}

/// Scala.
pub open spec fn scala_view() -> LanguageView {
    LanguageView {
        name: "Scala",
        regions: seq![comment_view(seq![47u8, 47u8], seq![10u8], false, false), comment_view(seq![47u8, 42u8], seq![42u8, 47u8], false, false), string_view(seq![34u8], seq![34u8], true)],
        interest_bytes: seq![10u8, 34u8, 47u8],
        default_mode: DefaultMode::Code,
        structured_format: StructuredFormat::Text,
        leading_doc_prefixes: seq![],
    }
}

/// Scala (// ... newline; /* ... */; " ... ").
fn define_scala() -> (l: LanguageDef)
    ensures
        l@ == scala_view(),
{
    let mut regions: Vec<Region> = Vec::new();
    regions.push(comment_region(vec![47u8, 47u8], vec![10u8], false, false));
    regions.push(comment_region(vec![47u8, 42u8], vec![42u8, 47u8], false, false));
    regions.push(string_region(vec![34u8], vec![34u8], true));
    let mut prefixes: Vec<Vec<u8>> = Vec::new();
    let l = LanguageDef {
        name: "Scala",
        regions,
        interest_bytes: vec![10u8, 34u8, 47u8],
        default_mode: DefaultMode::Code,
        structured_format: StructuredFormat::Text,
        leading_doc_prefixes: prefixes,
    };
    assert(l@ =~~= scala_view());
    l
}

/// Scheme.
pub open spec fn scheme_view() -> LanguageView {
    LanguageView {
        name: "Scheme",
        regions: seq![comment_view(seq![35u8, 124u8], seq![124u8, 35u8], true, false), comment_view(seq![59u8], seq![10u8], false, false)],
        interest_bytes: seq![10u8, 35u8, 59u8],
        default_mode: DefaultMode::Code,
        structured_format: StructuredFormat::Text,
        leading_doc_prefixes: seq![],
    }
}

/// Scheme (#| ... |#; ; ... newline).
fn define_scheme() -> (l: LanguageDef)
    ensures
        l@ == scheme_view(),
{
    let mut regions: Vec<Region> = Vec::new();
    regions.push(comment_region(vec![35u8, 124u8], vec![124u8, 35u8], true, false));
    regions.push(comment_region(vec![59u8], vec![10u8], false, false));
    let mut prefixes: Vec<Vec<u8>> = Vec::new();
    let l = LanguageDef {
        name: "Scheme",
        regions,
        interest_bytes: vec![10u8, 35u8, 59u8],
        default_mode: DefaultMode::Code,
        structured_format: StructuredFormat::Text,
        leading_doc_prefixes: prefixes,
    };
    assert(l@ =~~= scheme_view());
    l
}

/// Scons.
pub open spec fn scons_view() -> LanguageView {
    LanguageView {
        name: "Scons",
        regions: seq![string_view(seq![34u8, 34u8, 34u8], seq![34u8, 34u8, 34u8], true), string_view(seq![39u8, 39u8, 39u8], seq![39u8, 39u8, 39u8], true), comment_view(seq![35u8], seq![10u8], false, false), string_view(seq![34u8], seq![34u8], true), string_view(seq![39u8], seq![39u8], true)],
        interest_bytes: seq![10u8, 34u8, 35u8, 39u8],
        default_mode: DefaultMode::Code,
        structured_format: StructuredFormat::Text,
        leading_doc_prefixes: seq![],
    }
}

/// Scons (""" ... """; ''' ... '''; # ... newline; " ... "; ' ... ').
fn define_scons() -> (l: LanguageDef)
    ensures
        l@ == scons_view(),
{
    let mut regions: Vec<Region> = Vec::new();
    regions.push(string_region(vec![34u8, 34u8, 34u8], vec![34u8, 34u8, 34u8], true));
    regions.push(string_region(vec![39u8, 39u8, 39u8], vec![39u8, 39u8, 39u8], true));
    regions.push(comment_region(vec![35u8], vec![10u8], false, false));
    regions.push(string_region(vec![34u8], vec![34u8], true));
    regions.push(string_region(vec![39u8], vec![39u8], true));
    let mut prefixes: Vec<Vec<u8>> = Vec::new();
    let l = LanguageDef {
        name: "Scons",
        regions,
        interest_bytes: vec![10u8, 34u8, 35u8, 39u8],
        default_mode: DefaultMode::Code,
        structured_format: StructuredFormat::Text,
        leading_doc_prefixes: prefixes,
    };
    assert(l@ =~~= scons_view());
    l
}

/// Shell.
pub open spec fn shell_view() -> LanguageView {
    LanguageView {
        name: "Shell",
        regions: seq![comment_view(seq![35u8], seq![10u8], false, false), string_view(seq![34u8], seq![34u8], true), string_view(seq![39u8], seq![39u8], false)],
        interest_bytes: seq![10u8, 34u8, 35u8, 39u8],
        default_mode: DefaultMode::Code,
        structured_format: StructuredFormat::Text,
        leading_doc_prefixes: seq![],
    }
}

/// Shell (# ... newline; " ... "; ' ... ').
fn define_shell() -> (l: LanguageDef)
    ensures
        l@ == shell_view(),
{
    let mut regions: Vec<Region> = Vec::new();
    regions.push(comment_region(vec![35u8], vec![10u8], false, false));
    regions.push(string_region(vec![34u8], vec![34u8], true));
    regions.push(string_region(vec![39u8], vec![39u8], false));
    let mut prefixes: Vec<Vec<u8>> = Vec::new();
    let l = LanguageDef {
        name: "Shell",
        regions,
        interest_bytes: vec![10u8, 34u8, 35u8, 39u8],
        default_mode: DefaultMode::Code,
        structured_format: StructuredFormat::Text,
        leading_doc_prefixes: prefixes,
    };
    assert(l@ =~~= shell_view());
    l
}

/// Solidity.
pub open spec fn solidity_view() -> LanguageView {
    LanguageView {
        name: "Solidity",
        regions: seq![comment_view(seq![47u8, 47u8], seq![10u8], false, false), comment_view(seq![47u8, 42u8], seq![42u8, 47u8], false, false), string_view(seq![34u8], seq![34u8], true)],
        interest_bytes: seq![10u8, 34u8, 47u8],
        default_mode: DefaultMode::Code,
        structured_format: StructuredFormat::Text,
        leading_doc_prefixes: seq![],
    }
}

/// Solidity (// ... newline; /* ... */; " ... ").
fn define_solidity() -> (l: LanguageDef)
    ensures
        l@ == solidity_view(),
{
    let mut regions: Vec<Region> = Vec::new();
    regions.push(comment_region(vec![47u8, 47u8], vec![10u8], false, false));
    regions.push(comment_region(vec![47u8, 42u8], vec![42u8, 47u8], false, false));
    regions.push(string_region(vec![34u8], vec![34u8], true));
    let mut prefixes: Vec<Vec<u8>> = Vec::new();
    let l = LanguageDef {
        name: "Solidity",
        regions,
        interest_bytes: vec![10u8, 34u8, 47u8],
        default_mode: DefaultMode::Code,
        structured_format: StructuredFormat::Text,
        leading_doc_prefixes: prefixes,
    };
    assert(l@ =~~= solidity_view());
    l
}

/// Specman e.
pub open spec fn specman_e_view() -> LanguageView {
    LanguageView {
        name: "Specman e",
        regions: seq![comment_view(seq![45u8, 45u8], seq![10u8], false, false), comment_view(seq![47u8, 47u8], seq![10u8], false, false), comment_view(seq![39u8, 62u8], seq![60u8, 39u8], false, false)],
        interest_bytes: seq![10u8, 39u8, 45u8, 47u8],
        default_mode: DefaultMode::Code,
        structured_format: StructuredFormat::Text,
        leading_doc_prefixes: seq![],
    }
}

/// Specman e (-- ... newline; // ... newline; '> ... <').
fn define_specman_e() -> (l: LanguageDef)
    ensures
        l@ == specman_e_view(),
{
    let mut regions: Vec<Region> = Vec::new();
    regions.push(comment_region(vec![45u8, 45u8], vec![10u8], false, false));
    regions.push(comment_region(vec![47u8, 47u8], vec![10u8], false, false));
    regions.push(comment_region(vec![39u8, 62u8], vec![60u8, 39u8], false, false));
    let mut prefixes: Vec<Vec<u8>> = Vec::new();
    let l = LanguageDef {
        name: "Specman e",
        regions,
        interest_bytes: vec![10u8, 39u8, 45u8, 47u8],
        default_mode: DefaultMode::Code,
        structured_format: StructuredFormat::Text,
        leading_doc_prefixes: prefixes,
    };
    assert(l@ =~~= specman_e_view());
    l
}

/// Spice Netlist.
pub open spec fn spice_netlist_view() -> LanguageView {
    LanguageView {
        name: "Spice Netlist",
        regions: seq![comment_view(seq![42u8], seq![10u8], false, false)],
        interest_bytes: seq![10u8, 42u8],
        default_mode: DefaultMode::Code,
        structured_format: StructuredFormat::Text,
        leading_doc_prefixes: seq![],
    }
}

/// Spice Netlist (* ... newline).
fn define_spice_netlist() -> (l: LanguageDef)
    ensures
        l@ == spice_netlist_view(),
{
    let mut regions: Vec<Region> = Vec::new();
    regions.push(comment_region(vec![42u8], vec![10u8], false, false));
    let mut prefixes: Vec<Vec<u8>> = Vec::new();
    let l = LanguageDef {
        name: "Spice Netlist",
        regions,
        interest_bytes: vec![10u8, 42u8],
        default_mode: DefaultMode::Code,
        structured_format: StructuredFormat::Text,
        leading_doc_prefixes: prefixes,
    };
    assert(l@ =~~= spice_netlist_view());
    l
}

/// Stan.
pub open spec fn stan_view() -> LanguageView {
    LanguageView {
        name: "Stan",
        regions: seq![comment_view(seq![47u8, 47u8], seq![10u8], false, false), comment_view(seq![47u8, 42u8], seq![42u8, 47u8], false, false), comment_view(seq![35u8], seq![10u8], false, false), string_view(seq![34u8], seq![34u8], true)],
        interest_bytes: seq![10u8, 34u8, 35u8, 47u8],
        default_mode: DefaultMode::Code,
        structured_format: StructuredFormat::Text,
        leading_doc_prefixes: seq![],
    }
}

/// Stan (// ... newline; /* ... */; # ... newline; " ... ").
fn define_stan() -> (l: LanguageDef)
    ensures
        l@ == stan_view(),
{
    let mut regions: Vec<Region> = Vec::new();
    regions.push(comment_region(vec![47u8, 47u8], vec![10u8], false, false));
    regions.push(comment_region(vec![47u8, 42u8], vec![42u8, 47u8], false, false));
    regions.push(comment_region(vec![35u8], vec![10u8], false, false));
    regions.push(string_region(vec![34u8], vec![34u8], true));
    let mut prefixes: Vec<Vec<u8>> = Vec::new();
    let l = LanguageDef {
        name: "Stan",
        regions,
        interest_bytes: vec![10u8, 34u8, 35u8, 47u8],
        default_mode: DefaultMode::Code,
        structured_format: StructuredFormat::Text,
        leading_doc_prefixes: prefixes,
    };
    assert(l@ =~~= stan_view());
    l
}

/// Standard ML (SML).
pub open spec fn standard_ml_sml_view() -> LanguageView {
    LanguageView {
        name: "Standard ML (SML)",
        regions: seq![comment_view(seq![40u8, 42u8], seq![42u8, 41u8], false, false), string_view(seq![34u8], seq![34u8], true)],
        interest_bytes: seq![10u8, 34u8, 40u8],
        default_mode: DefaultMode::Code,
        structured_format: StructuredFormat::Text,
        leading_doc_prefixes: seq![],
    }
}

/// Standard ML (SML) ((* ... *); " ... ").
fn define_standard_ml_sml() -> (l: LanguageDef)
    ensures
        l@ == standard_ml_sml_view(),
{
    let mut regions: Vec<Region> = Vec::new();
    regions.push(comment_region(vec![40u8, 42u8], vec![42u8, 41u8], false, false));
    regions.push(string_region(vec![34u8], vec![34u8], true));
    let mut prefixes: Vec<Vec<u8>> = Vec::new();
    let l = LanguageDef {
        name: "Standard ML (SML)",
        regions,
        interest_bytes: vec![10u8, 34u8, 40u8],
        default_mode: DefaultMode::Code,
        structured_format: StructuredFormat::Text,
        leading_doc_prefixes: prefixes,
    };
    assert(l@ =~~= standard_ml_sml_view());
    l
}

/// Stratego/XT.
pub open spec fn stratego_xt_view() -> LanguageView {
    LanguageView {
        name: "Stratego/XT",
        regions: seq![comment_view(seq![47u8, 47u8], seq![10u8], false, false), comment_view(seq![47u8, 42u8], seq![42u8, 47u8], false, false), string_view(seq![36u8, 91u8], seq![93u8], true), string_view(seq![36u8, 60u8], seq![62u8], true), string_view(seq![36u8, 123u8], seq![125u8], true), string_view(seq![34u8], seq![34u8], true)],
        interest_bytes: seq![10u8, 34u8, 36u8, 47u8],
        default_mode: DefaultMode::Code,
        structured_format: StructuredFormat::Text,
        leading_doc_prefixes: seq![],
    }
}

/// Stratego/XT (// ... newline; /* ... */; $[ ... ]; $< ... >; ${ ... }; " ... ").
fn define_stratego_xt() -> (l: LanguageDef)
    ensures
        l@ == stratego_xt_view(),
{
    let mut regions: Vec<Region> = Vec::new();
    regions.push(comment_region(vec![47u8, 47u8], vec![10u8], false, false));
    regions.push(comment_region(vec![47u8, 42u8], vec![42u8, 47u8], false, false));
    regions.push(string_region(vec![36u8, 91u8], vec![93u8], true));
    regions.push(string_region(vec![36u8, 60u8], vec![62u8], true));
    regions.push(string_region(vec![36u8, 123u8], vec![125u8], true));
    regions.push(string_region(vec![34u8], vec![34u8], true));
    let mut prefixes: Vec<Vec<u8>> = Vec::new();
    let l = LanguageDef {
        name: "Stratego/XT",
        regions,
        interest_bytes: vec![10u8, 34u8, 36u8, 47u8],
        default_mode: DefaultMode::Code,
        structured_format: StructuredFormat::Text,
        leading_doc_prefixes: prefixes,
    };
    assert(l@ =~~= stratego_xt_view());
    l
}

/// Stylus.
pub open spec fn stylus_view() -> LanguageView {
    LanguageView {
        name: "Stylus",
        regions: seq![comment_view(seq![47u8, 47u8], seq![10u8], false, false), comment_view(seq![47u8, 42u8], seq![42u8, 47u8], false, false), string_view(seq![34u8], seq![34u8], true), string_view(seq![39u8], seq![39u8], true)],
        interest_bytes: seq![10u8, 34u8, 39u8, 47u8],
        default_mode: DefaultMode::Code,
        structured_format: StructuredFormat::Text,
        leading_doc_prefixes: seq![],
    }
}

/// Stylus (// ... newline; /* ... */; " ... "; ' ... ').
fn define_stylus() -> (l: LanguageDef)
    ensures
        l@ == stylus_view(),
{
    let mut regions: Vec<Region> = Vec::new();
    regions.push(comment_region(vec![47u8, 47u8], vec![10u8], false, false));
    regions.push(comment_region(vec![47u8, 42u8], vec![42u8, 47u8], false, false));
    regions.push(string_region(vec![34u8], vec![34u8], true));
    regions.push(string_region(vec![39u8], vec![39u8], true));
    let mut prefixes: Vec<Vec<u8>> = Vec::new();
    let l = LanguageDef {
        name: "Stylus",
        regions,
        interest_bytes: vec![10u8, 34u8, 39u8, 47u8],
        default_mode: DefaultMode::Code,
        structured_format: StructuredFormat::Text,
        leading_doc_prefixes: prefixes,
    };
    assert(l@ =~~= stylus_view());
    l
}

/// Svelte.
pub open spec fn svelte_view() -> LanguageView {
    LanguageView {
        name: "Svelte",
        regions: seq![comment_view(seq![60u8, 33u8, 45u8, 45u8], seq![45u8, 45u8, 62u8], false, false), string_view(seq![34u8], seq![34u8], true), string_view(seq![39u8], seq![39u8], true)],
        interest_bytes: seq![10u8, 34u8, 39u8, 60u8],
        default_mode: DefaultMode::Code,
        structured_format: StructuredFormat::Text,
        leading_doc_prefixes: seq![],
    }
}

/// Svelte (<!-- ... -->; " ... "; ' ... ').
fn define_svelte() -> (l: LanguageDef)
    ensures
        l@ == svelte_view(),
{
    let mut regions: Vec<Region> = Vec::new();
    regions.push(comment_region(vec![60u8, 33u8, 45u8, 45u8], vec![45u8, 45u8, 62u8], false, false));
    regions.push(string_region(vec![34u8], vec![34u8], true));
    regions.push(string_region(vec![39u8], vec![39u8], true));
    let mut prefixes: Vec<Vec<u8>> = Vec::new();
    let l = LanguageDef {
        name: "Svelte",
        regions,
        interest_bytes: vec![10u8, 34u8, 39u8, 60u8],
        default_mode: DefaultMode::Code,
        structured_format: StructuredFormat::Text,
        leading_doc_prefixes: prefixes,
    };
    assert(l@ =~~= svelte_view());
    l
}

/// Swift.
pub open spec fn swift_view() -> LanguageView {
    LanguageView {
        name: "Swift",
        regions: seq![comment_view(seq![47u8, 47u8], seq![10u8], false, false), comment_view(seq![47u8, 42u8], seq![42u8, 47u8], true, false), string_view(seq![34u8], seq![34u8], true)],
        interest_bytes: seq![10u8, 34u8, 47u8],
        default_mode: DefaultMode::Code,
        structured_format: StructuredFormat::Text,
        leading_doc_prefixes: seq![],
    }
}

/// Swift (// ... newline; /* ... */; " ... ").
fn define_swift() -> (l: LanguageDef)
    ensures
        l@ == swift_view(),
{
    let mut regions: Vec<Region> = Vec::new();
    regions.push(comment_region(vec![47u8, 47u8], vec![10u8], false, false));
    regions.push(comment_region(vec![47u8, 42u8], vec![42u8, 47u8], true, false));
    regions.push(string_region(vec![34u8], vec![34u8], true));
    let mut prefixes: Vec<Vec<u8>> = Vec::new();
    let l = LanguageDef {
        name: "Swift",
        regions,
        interest_bytes: vec![10u8, 34u8, 47u8],
        default_mode: DefaultMode::Code,
        structured_format: StructuredFormat::Text,
        leading_doc_prefixes: prefixes,
    };
    assert(l@ =~~= swift_view());
    l
}

/// SystemVerilog.
pub open spec fn systemverilog_view() -> LanguageView {
    LanguageView {
        name: "SystemVerilog",
        regions: seq![comment_view(seq![47u8, 47u8], seq![10u8], false, false), comment_view(seq![47u8, 42u8], seq![42u8, 47u8], false, false), string_view(seq![34u8], seq![34u8], true)],
        interest_bytes: seq![10u8, 34u8, 47u8],
        default_mode: DefaultMode::Code,
        structured_format: StructuredFormat::Text,
        leading_doc_prefixes: seq![],
    }
}

/// SystemVerilog (// ... newline; /* ... */; " ... ").
fn define_systemverilog() -> (l: LanguageDef)
    ensures
        l@ == systemverilog_view(),
{
    let mut regions: Vec<Region> = Vec::new();
    regions.push(comment_region(vec![47u8, 47u8], vec![10u8], false, false));
    regions.push(comment_region(vec![47u8, 42u8], vec![42u8, 47u8], false, false));
    regions.push(string_region(vec![34u8], vec![34u8], true));
    let mut prefixes: Vec<Vec<u8>> = Vec::new();
    let l = LanguageDef {
        name: "SystemVerilog",
        regions,
        interest_bytes: vec![10u8, 34u8, 47u8],
        default_mode: DefaultMode::Code,
        structured_format: StructuredFormat::Text,
        leading_doc_prefixes: prefixes,
    };
    assert(l@ =~~= systemverilog_view());
    l
}

/// TCL.
pub open spec fn tcl_view() -> LanguageView {
    LanguageView {
        name: "TCL",
        regions: seq![comment_view(seq![35u8], seq![10u8], false, false), string_view(seq![34u8], seq![34u8], true), string_view(seq![39u8], seq![39u8], true)],
        interest_bytes: seq![10u8, 34u8, 35u8, 39u8],
        default_mode: DefaultMode::Code,
        structured_format: StructuredFormat::Text,
        leading_doc_prefixes: seq![],
    }
}

/// TCL (# ... newline; " ... "; ' ... ').
fn define_tcl() -> (l: LanguageDef)
    ensures
        l@ == tcl_view(),
{
    let mut regions: Vec<Region> = Vec::new();
    regions.push(comment_region(vec![35u8], vec![10u8], false, false));
    regions.push(string_region(vec![34u8], vec![34u8], true));
    regions.push(string_region(vec![39u8], vec![39u8], true));
    let mut prefixes: Vec<Vec<u8>> = Vec::new();
    let l = LanguageDef {
        name: "TCL",
        regions,
        interest_bytes: vec![10u8, 34u8, 35u8, 39u8],
        default_mode: DefaultMode::Code,
        structured_format: StructuredFormat::Text,
        leading_doc_prefixes: prefixes,
    };
    assert(l@ =~~= tcl_view());
    l
}

/// TOML.
pub open spec fn toml_view() -> LanguageView {
    LanguageView {
        name: "TOML",
        regions: seq![string_view(seq![34u8, 34u8, 34u8], seq![34u8, 34u8, 34u8], true), string_view(seq![39u8, 39u8, 39u8], seq![39u8, 39u8, 39u8], false), comment_view(seq![35u8], seq![10u8], false, false), string_view(seq![34u8], seq![34u8], true), string_view(seq![39u8], seq![39u8], false)],
        interest_bytes: seq![10u8, 34u8, 35u8, 39u8],
        default_mode: DefaultMode::Code,
        structured_format: StructuredFormat::Text,
        leading_doc_prefixes: seq![],
    }
}

/// TOML (""" ... """; ''' ... '''; # ... newline; " ... "; ' ... ').
fn define_toml() -> (l: LanguageDef)
    ensures
        l@ == toml_view(),
{
    let mut regions: Vec<Region> = Vec::new();
    regions.push(string_region(vec![34u8, 34u8, 34u8], vec![34u8, 34u8, 34u8], true));
    regions.push(string_region(vec![39u8, 39u8, 39u8], vec![39u8, 39u8, 39u8], false));
    regions.push(comment_region(vec![35u8], vec![10u8], false, false));
    regions.push(string_region(vec![34u8], vec![34u8], true));
    regions.push(string_region(vec![39u8], vec![39u8], false));
    let mut prefixes: Vec<Vec<u8>> = Vec::new();
    let l = LanguageDef {
        name: "TOML",
        regions,
        interest_bytes: vec![10u8, 34u8, 35u8, 39u8],
        default_mode: DefaultMode::Code,
        structured_format: StructuredFormat::Text,
        leading_doc_prefixes: prefixes,
    };
    assert(l@ =~~= toml_view());
    l
}

/// TSX.
pub open spec fn tsx_view() -> LanguageView {
    LanguageView {
        name: "TSX",
        regions: seq![comment_view(seq![47u8, 47u8], seq![10u8], false, false), comment_view(seq![47u8, 42u8], seq![42u8, 47u8], false, false), string_view(seq![34u8], seq![34u8], true), string_view(seq![39u8], seq![39u8], true), string_view(seq![96u8], seq![96u8], true)],
        interest_bytes: seq![10u8, 34u8, 39u8, 47u8, 96u8],
        default_mode: DefaultMode::Code,
        structured_format: StructuredFormat::Text,
        leading_doc_prefixes: seq![],
    }
}

/// TSX (// ... newline; /* ... */; " ... "; ' ... '; ' ... ').
fn define_tsx() -> (l: LanguageDef)
    ensures
        l@ == tsx_view(),
{
    let mut regions: Vec<Region> = Vec::new();
    regions.push(comment_region(vec![47u8, 47u8], vec![10u8], false, false));
    regions.push(comment_region(vec![47u8, 42u8], vec![42u8, 47u8], false, false));
    regions.push(string_region(vec![34u8], vec![34u8], true));
    regions.push(string_region(vec![39u8], vec![39u8], true));
    regions.push(string_region(vec![96u8], vec![96u8], true));
    let mut prefixes: Vec<Vec<u8>> = Vec::new();
    let l = LanguageDef {
        name: "TSX",
        regions,
        interest_bytes: vec![10u8, 34u8, 39u8, 47u8, 96u8],
        default_mode: DefaultMode::Code,
        structured_format: StructuredFormat::Text,
        leading_doc_prefixes: prefixes,
    };
    assert(l@ =~~= tsx_view());
    l
}

/// TTCN-3.
pub open spec fn ttcn_3_view() -> LanguageView {
    LanguageView {
        name: "TTCN-3",
        regions: seq![comment_view(seq![47u8, 47u8], seq![10u8], false, false), comment_view(seq![47u8, 42u8], seq![42u8, 47u8], false, false), string_view(seq![34u8], seq![34u8], true)],
        interest_bytes: seq![10u8, 34u8, 47u8],
        default_mode: DefaultMode::Code,
        structured_format: StructuredFormat::Text,
        leading_doc_prefixes: seq![],
    }
}

/// TTCN-3 (// ... newline; /* ... */; " ... ").
fn define_ttcn_3() -> (l: LanguageDef)
    ensures
        l@ == ttcn_3_view(),
{
    let mut regions: Vec<Region> = Vec::new();
    regions.push(comment_region(vec![47u8, 47u8], vec![10u8], false, false));
    regions.push(comment_region(vec![47u8, 42u8], vec![42u8, 47u8], false, false));
    regions.push(string_region(vec![34u8], vec![34u8], true));
    let mut prefixes: Vec<Vec<u8>> = Vec::new();
    let l = LanguageDef {
        name: "TTCN-3",
        regions,
        interest_bytes: vec![10u8, 34u8, 47u8],
        default_mode: DefaultMode::Code,
        structured_format: StructuredFormat::Text,
        leading_doc_prefixes: prefixes,
    };
    assert(l@ =~~= ttcn_3_view());
    l
}

/// TeX.
pub open spec fn tex_view() -> LanguageView {
    LanguageView {
        name: "TeX",
        regions: seq![comment_view(seq![37u8], seq![10u8], false, false)],
        interest_bytes: seq![10u8, 37u8],
        default_mode: DefaultMode::Code,
        structured_format: StructuredFormat::Text,
        leading_doc_prefixes: seq![],
    }
}

/// TeX (% ... newline).
fn define_tex() -> (l: LanguageDef)
    ensures
        l@ == tex_view(),
{
    let mut regions: Vec<Region> = Vec::new();
    regions.push(comment_region(vec![37u8], vec![10u8], false, false));
    let mut prefixes: Vec<Vec<u8>> = Vec::new();
    let l = LanguageDef {
        name: "TeX",
        regions,
        interest_bytes: vec![10u8, 37u8],
        default_mode: DefaultMode::Code,
        structured_format: StructuredFormat::Text,
        leading_doc_prefixes: prefixes,
    };
    assert(l@ =~~= tex_view());
    l
}

/// Tera.
pub open spec fn tera_view() -> LanguageView {
    LanguageView {
        name: "Tera",
        regions: seq![comment_view(seq![60u8, 33u8, 45u8, 45u8], seq![45u8, 45u8, 62u8], false, false), comment_view(seq![123u8, 35u8], seq![35u8, 125u8], false, false), string_view(seq![34u8], seq![34u8], true), string_view(seq![39u8], seq![39u8], true)],
        interest_bytes: seq![10u8, 34u8, 39u8, 60u8, 123u8],
        default_mode: DefaultMode::Code,
        structured_format: StructuredFormat::Text,
        leading_doc_prefixes: seq![],
    }
}

/// Tera (<!-- ... -->; {# ... #}; " ... "; ' ... ').
fn define_tera() -> (l: LanguageDef)
    ensures
        l@ == tera_view(),
{
    let mut regions: Vec<Region> = Vec::new();
    regions.push(comment_region(vec![60u8, 33u8, 45u8, 45u8], vec![45u8, 45u8, 62u8], false, false));
    regions.push(comment_region(vec![123u8, 35u8], vec![35u8, 125u8], false, false));
    regions.push(string_region(vec![34u8], vec![34u8], true));
    regions.push(string_region(vec![39u8], vec![39u8], true));
    let mut prefixes: Vec<Vec<u8>> = Vec::new();
    let l = LanguageDef {
        name: "Tera",
        regions,
        interest_bytes: vec![10u8, 34u8, 39u8, 60u8, 123u8],
        default_mode: DefaultMode::Code,
        structured_format: StructuredFormat::Text,
        leading_doc_prefixes: prefixes,
    };
    assert(l@ =~~= tera_view());
    l
}

/// Thrift.
pub open spec fn thrift_view() -> LanguageView {
    LanguageView {
        name: "Thrift",
        regions: seq![comment_view(seq![47u8, 47u8], seq![10u8], false, false), comment_view(seq![47u8, 42u8], seq![42u8, 47u8], false, false), comment_view(seq![35u8], seq![10u8], false, false), string_view(seq![34u8], seq![34u8], true), string_view(seq![39u8], seq![39u8], true)],
        interest_bytes: seq![10u8, 34u8, 35u8, 39u8, 47u8],
        default_mode: DefaultMode::Code,
        structured_format: StructuredFormat::Text,
        leading_doc_prefixes: seq![],
    }
}

/// Thrift (// ... newline; /* ... */; # ... newline; " ... "; ' ... ').
fn define_thrift() -> (l: LanguageDef)
    ensures
        l@ == thrift_view(),
{
    let mut regions: Vec<Region> = Vec::new();
    regions.push(comment_region(vec![47u8, 47u8], vec![10u8], false, false));
    regions.push(comment_region(vec![47u8, 42u8], vec![42u8, 47u8], false, false));
    regions.push(comment_region(vec![35u8], vec![10u8], false, false));
    regions.push(string_region(vec![34u8], vec![34u8], true));
    regions.push(string_region(vec![39u8], vec![39u8], true));
    let mut prefixes: Vec<Vec<u8>> = Vec::new();
    let l = LanguageDef {
        name: "Thrift",
        regions,
        interest_bytes: vec![10u8, 34u8, 35u8, 39u8, 47u8],
        default_mode: DefaultMode::Code,
        structured_format: StructuredFormat::Text,
        leading_doc_prefixes: prefixes,
    };
    assert(l@ =~~= thrift_view());
    l
}

/// Twig.
pub open spec fn twig_view() -> LanguageView {
    LanguageView {
        name: "Twig",
        regions: seq![comment_view(seq![60u8, 33u8, 45u8, 45u8], seq![45u8, 45u8, 62u8], false, false), comment_view(seq![123u8, 35u8], seq![35u8, 125u8], false, false), string_view(seq![34u8], seq![34u8], true), string_view(seq![39u8], seq![39u8], true)],
        interest_bytes: seq![10u8, 34u8, 39u8, 60u8, 123u8],
        default_mode: DefaultMode::Code,
        structured_format: StructuredFormat::Text,
        leading_doc_prefixes: seq![],
    }
}

/// Twig (<!-- ... -->; {# ... #}; " ... "; ' ... ').
fn define_twig() -> (l: LanguageDef)
    ensures
        l@ == twig_view(),
{
    let mut regions: Vec<Region> = Vec::new();
    regions.push(comment_region(vec![60u8, 33u8, 45u8, 45u8], vec![45u8, 45u8, 62u8], false, false));
    regions.push(comment_region(vec![123u8, 35u8], vec![35u8, 125u8], false, false));
    regions.push(string_region(vec![34u8], vec![34u8], true));
    regions.push(string_region(vec![39u8], vec![39u8], true));
    let mut prefixes: Vec<Vec<u8>> = Vec::new();
    let l = LanguageDef {
        name: "Twig",
        regions,
        interest_bytes: vec![10u8, 34u8, 39u8, 60u8, 123u8],
        default_mode: DefaultMode::Code,
        structured_format: StructuredFormat::Text,
        leading_doc_prefixes: prefixes,
    };
    assert(l@ =~~= twig_view());
    l
}

/// TypeScript.
pub open spec fn typescript_view() -> LanguageView {
    LanguageView {
        name: "TypeScript",
        regions: seq![comment_view(seq![47u8, 47u8], seq![10u8], false, false), comment_view(seq![47u8, 42u8], seq![42u8, 47u8], false, false), string_view(seq![34u8], seq![34u8], true), string_view(seq![39u8], seq![39u8], true), string_view(seq![96u8], seq![96u8], true)],
        interest_bytes: seq![10u8, 34u8, 39u8, 47u8, 96u8],
        default_mode: DefaultMode::Code,
        structured_format: StructuredFormat::Text,
        leading_doc_prefixes: seq![],
    }
}

/// TypeScript (// ... newline; /* ... */; " ... "; ' ... '; ' ... ').
fn define_typescript() -> (l: LanguageDef)
    ensures
        l@ == typescript_view(),
{
    let mut regions: Vec<Region> = Vec::new();
    regions.push(comment_region(vec![47u8, 47u8], vec![10u8], false, false));
    regions.push(comment_region(vec![47u8, 42u8], vec![42u8, 47u8], false, false));
    regions.push(string_region(vec![34u8], vec![34u8], true));
    regions.push(string_region(vec![39u8], vec![39u8], true));
    regions.push(string_region(vec![96u8], vec![96u8], true));
    let mut prefixes: Vec<Vec<u8>> = Vec::new();
    let l = LanguageDef {
        name: "TypeScript",
        regions,
        interest_bytes: vec![10u8, 34u8, 39u8, 47u8, 96u8],
        default_mode: DefaultMode::Code,
        structured_format: StructuredFormat::Text,
        leading_doc_prefixes: prefixes,
    };
    assert(l@ =~~= typescript_view());
    l
}

/// Unreal Markdown.
pub open spec fn unreal_markdown_view() -> LanguageView {
    LanguageView {
        name: "Unreal Markdown",
        regions: seq![],
        interest_bytes: seq![10u8],
        default_mode: DefaultMode::Code,
        structured_format: StructuredFormat::Text,
        leading_doc_prefixes: seq![],
    }
}

/// Unreal Markdown (no regions).
fn define_unreal_markdown() -> (l: LanguageDef)
    ensures
        l@ == unreal_markdown_view(),
{
    let mut regions: Vec<Region> = Vec::new();
    let mut prefixes: Vec<Vec<u8>> = Vec::new();
    let l = LanguageDef {
        name: "Unreal Markdown",
        regions,
        interest_bytes: vec![10u8],
        default_mode: DefaultMode::Code,
        structured_format: StructuredFormat::Text,
        leading_doc_prefixes: prefixes,
    };
    assert(l@ =~~= unreal_markdown_view());
    l
}

/// Unreal Plugin.
pub open spec fn unreal_plugin_view() -> LanguageView {
    LanguageView {
        name: "Unreal Plugin",
        regions: seq![],
        interest_bytes: seq![10u8],
        default_mode: DefaultMode::Code,
        structured_format: StructuredFormat::Text,
        leading_doc_prefixes: seq![],
    }
}

/// Unreal Plugin (no regions).
fn define_unreal_plugin() -> (l: LanguageDef)
    ensures
        l@ == unreal_plugin_view(),
{
    let mut regions: Vec<Region> = Vec::new();
    let mut prefixes: Vec<Vec<u8>> = Vec::new();
    let l = LanguageDef {
        name: "Unreal Plugin",
        regions,
        interest_bytes: vec![10u8],
        default_mode: DefaultMode::Code,
        structured_format: StructuredFormat::Text,
        leading_doc_prefixes: prefixes,
    };
    assert(l@ =~~= unreal_plugin_view());
    l
}

/// Unreal Project.
pub open spec fn unreal_project_view() -> LanguageView {
    LanguageView {
        name: "Unreal Project",
        regions: seq![],
        interest_bytes: seq![10u8],
        default_mode: DefaultMode::Code,
        structured_format: StructuredFormat::Text,
        leading_doc_prefixes: seq![],
    }
}

/// Unreal Project (no regions).
fn define_unreal_project() -> (l: LanguageDef)
    ensures
        l@ == unreal_project_view(),
{
    let mut regions: Vec<Region> = Vec::new();
    let mut prefixes: Vec<Vec<u8>> = Vec::new();
    let l = LanguageDef {
        name: "Unreal Project",
        regions,
        interest_bytes: vec![10u8],
        default_mode: DefaultMode::Code,
        structured_format: StructuredFormat::Text,
        leading_doc_prefixes: prefixes,
    };
    assert(l@ =~~= unreal_project_view());
    l
}

/// Unreal Script.
pub open spec fn unreal_script_view() -> LanguageView {
    LanguageView {
        name: "Unreal Script",
        regions: seq![comment_view(seq![47u8, 47u8], seq![10u8], false, false), comment_view(seq![47u8, 42u8], seq![42u8, 47u8], false, false), string_view(seq![34u8], seq![34u8], true)],
        interest_bytes: seq![10u8, 34u8, 47u8],
        default_mode: DefaultMode::Code,
        structured_format: StructuredFormat::Text,
        leading_doc_prefixes: seq![],
    }
}

/// Unreal Script (// ... newline; /* ... */; " ... ").
fn define_unreal_script() -> (l: LanguageDef)
    ensures
        l@ == unreal_script_view(),
{
    let mut regions: Vec<Region> = Vec::new();
    regions.push(comment_region(vec![47u8, 47u8], vec![10u8], false, false));
    regions.push(comment_region(vec![47u8, 42u8], vec![42u8, 47u8], false, false));
    regions.push(string_region(vec![34u8], vec![34u8], true));
    let mut prefixes: Vec<Vec<u8>> = Vec::new();
    let l = LanguageDef {
        name: "Unreal Script",
        regions,
        interest_bytes: vec![10u8, 34u8, 47u8],
        default_mode: DefaultMode::Code,
        structured_format: StructuredFormat::Text,
        leading_doc_prefixes: prefixes,
    };
    assert(l@ =~~= unreal_script_view());
    l
}

/// Unreal Shader.
pub open spec fn unreal_shader_view() -> LanguageView {
    LanguageView {
        name: "Unreal Shader",
        regions: seq![comment_view(seq![47u8, 47u8], seq![10u8], false, false), comment_view(seq![47u8, 42u8], seq![42u8, 47u8], false, false), string_view(seq![34u8], seq![34u8], true)],
        interest_bytes: seq![10u8, 34u8, 47u8],
        default_mode: DefaultMode::Code,
        structured_format: StructuredFormat::Text,
        leading_doc_prefixes: seq![],
    }
}

/// Unreal Shader (// ... newline; /* ... */; " ... ").
fn define_unreal_shader() -> (l: LanguageDef)
    ensures
        l@ == unreal_shader_view(),
{
    let mut regions: Vec<Region> = Vec::new();
    regions.push(comment_region(vec![47u8, 47u8], vec![10u8], false, false));
    regions.push(comment_region(vec![47u8, 42u8], vec![42u8, 47u8], false, false));
    regions.push(string_region(vec![34u8], vec![34u8], true));
    let mut prefixes: Vec<Vec<u8>> = Vec::new();
    let l = LanguageDef {
        name: "Unreal Shader",
        regions,
        interest_bytes: vec![10u8, 34u8, 47u8],
        default_mode: DefaultMode::Code,
        structured_format: StructuredFormat::Text,
        leading_doc_prefixes: prefixes,
    };
    assert(l@ =~~= unreal_shader_view());
    l
}

/// Unreal Shader Header.
pub open spec fn unreal_shader_header_view() -> LanguageView {
    LanguageView {
        name: "Unreal Shader Header",
        regions: seq![comment_view(seq![47u8, 47u8], seq![10u8], false, false), comment_view(seq![47u8, 42u8], seq![42u8, 47u8], false, false), string_view(seq![34u8], seq![34u8], true)],
        interest_bytes: seq![10u8, 34u8, 47u8],
        default_mode: DefaultMode::Code,
        structured_format: StructuredFormat::Text,
        leading_doc_prefixes: seq![],
    }
}

/// Unreal Shader Header (// ... newline; /* ... */; " ... ").
fn define_unreal_shader_header() -> (l: LanguageDef)
    ensures
        l@ == unreal_shader_header_view(),
{
    let mut regions: Vec<Region> = Vec::new();
    regions.push(comment_region(vec![47u8, 47u8], vec![10u8], false, false));
    regions.push(comment_region(vec![47u8, 42u8], vec![42u8, 47u8], false, false));
    regions.push(string_region(vec![34u8], vec![34u8], true));
    let mut prefixes: Vec<Vec<u8>> = Vec::new();
    let l = LanguageDef {
        name: "Unreal Shader Header",
        regions,
        interest_bytes: vec![10u8, 34u8, 47u8],
        default_mode: DefaultMode::Code,
        structured_format: StructuredFormat::Text,
        leading_doc_prefixes: prefixes,
    };
    assert(l@ =~~= unreal_shader_header_view());
    l
}

/// Ur/Web.
pub open spec fn ur_web_view() -> LanguageView {
    LanguageView {
        name: "Ur/Web",
        regions: seq![comment_view(seq![40u8, 42u8], seq![42u8, 41u8], false, false), string_view(seq![34u8], seq![34u8], true)],
        interest_bytes: seq![10u8, 34u8, 40u8],
        default_mode: DefaultMode::Code,
        structured_format: StructuredFormat::Text,
        leading_doc_prefixes: seq![],
    }
}

/// Ur/Web ((* ... *); " ... ").
fn define_ur_web() -> (l: LanguageDef)
    ensures
        l@ == ur_web_view(),
{
    let mut regions: Vec<Region> = Vec::new();
    regions.push(comment_region(vec![40u8, 42u8], vec![42u8, 41u8], false, false));
    regions.push(string_region(vec![34u8], vec![34u8], true));
    let mut prefixes: Vec<Vec<u8>> = Vec::new();
    let l = LanguageDef {
        name: "Ur/Web",
        regions,
        interest_bytes: vec![10u8, 34u8, 40u8],
        default_mode: DefaultMode::Code,
        structured_format: StructuredFormat::Text,
        leading_doc_prefixes: prefixes,
    };
    assert(l@ =~~= ur_web_view());
    l
}

/// Ur/Web Project.
pub open spec fn ur_web_project_view() -> LanguageView {
    LanguageView {
        name: "Ur/Web Project",
        regions: seq![comment_view(seq![35u8], seq![10u8], false, false)],
        interest_bytes: seq![10u8, 35u8],
        default_mode: DefaultMode::Code,
        structured_format: StructuredFormat::Text,
        leading_doc_prefixes: seq![],
    }
}

/// Ur/Web Project (# ... newline).
fn define_ur_web_project() -> (l: LanguageDef)
    ensures
        l@ == ur_web_project_view(),
{
    let mut regions: Vec<Region> = Vec::new();
    regions.push(comment_region(vec![35u8], vec![10u8], false, false));
    let mut prefixes: Vec<Vec<u8>> = Vec::new();
    let l = LanguageDef {
        name: "Ur/Web Project",
        regions,
        interest_bytes: vec![10u8, 35u8],
        default_mode: DefaultMode::Code,
        structured_format: StructuredFormat::Text,
        leading_doc_prefixes: prefixes,
    };
    assert(l@ =~~= ur_web_project_view());
    l
}

/// VB6.
pub open spec fn vb6_view() -> LanguageView {
    LanguageView {
        name: "VB6",
        regions: seq![comment_view(seq![39u8], seq![10u8], false, false)],
        interest_bytes: seq![10u8, 39u8],
        default_mode: DefaultMode::Code,
        structured_format: StructuredFormat::Text,
        leading_doc_prefixes: seq![],
    }
}

/// VB6 (' ... newline).
fn define_vb6() -> (l: LanguageDef)
    ensures
        l@ == vb6_view(),
{
    let mut regions: Vec<Region> = Vec::new();
    regions.push(comment_region(vec![39u8], vec![10u8], false, false));
    let mut prefixes: Vec<Vec<u8>> = Vec::new();
    let l = LanguageDef {
        name: "VB6",
        regions,
        interest_bytes: vec![10u8, 39u8],
        default_mode: DefaultMode::Code,
        structured_format: StructuredFormat::Text,
        leading_doc_prefixes: prefixes,
    };
    assert(l@ =~~= vb6_view());
    l
}

/// VBScript.
pub open spec fn vbscript_view() -> LanguageView {
    LanguageView {
        name: "VBScript",
        regions: seq![comment_view(seq![82u8, 69u8, 77u8], seq![10u8], false, false), comment_view(seq![39u8], seq![10u8], false, false)],
        interest_bytes: seq![10u8, 39u8, 82u8],
        default_mode: DefaultMode::Code,
        structured_format: StructuredFormat::Text,
        leading_doc_prefixes: seq![],
    }
}

/// VBScript (REM ... newline; ' ... newline).
fn define_vbscript() -> (l: LanguageDef)
    ensures
        l@ == vbscript_view(),
{
    let mut regions: Vec<Region> = Vec::new();
    regions.push(comment_region(vec![82u8, 69u8, 77u8], vec![10u8], false, false));
    regions.push(comment_region(vec![39u8], vec![10u8], false, false));
    let mut prefixes: Vec<Vec<u8>> = Vec::new();
    let l = LanguageDef {
        name: "VBScript",
        regions,
        interest_bytes: vec![10u8, 39u8, 82u8],
        default_mode: DefaultMode::Code,
        structured_format: StructuredFormat::Text,
        leading_doc_prefixes: prefixes,
    };
    assert(l@ =~~= vbscript_view());
    l
}

/// VHDL.
pub open spec fn vhdl_view() -> LanguageView {
    LanguageView {
        name: "VHDL",
        regions: seq![comment_view(seq![45u8, 45u8], seq![10u8], false, false)],
        interest_bytes: seq![10u8, 45u8],
        default_mode: DefaultMode::Code,
        structured_format: StructuredFormat::Text,
        leading_doc_prefixes: seq![],
    }
}

/// VHDL (-- ... newline).
fn define_vhdl() -> (l: LanguageDef)
    ensures
        l@ == vhdl_view(),
{
    let mut regions: Vec<Region> = Vec::new();
    regions.push(comment_region(vec![45u8, 45u8], vec![10u8], false, false));
    let mut prefixes: Vec<Vec<u8>> = Vec::new();
    let l = LanguageDef {
        name: "VHDL",
        regions,
        interest_bytes: vec![10u8, 45u8],
        default_mode: DefaultMode::Code,
        structured_format: StructuredFormat::Text,
        leading_doc_prefixes: prefixes,
    };
    assert(l@ =~~= vhdl_view());
    l
}

/// Vala.
pub open spec fn vala_view() -> LanguageView {
    LanguageView {
        name: "Vala",
        regions: seq![comment_view(seq![47u8, 47u8], seq![10u8], false, false), comment_view(seq![47u8, 42u8], seq![42u8, 47u8], false, false), string_view(seq![34u8], seq![34u8], true)],
        interest_bytes: seq![10u8, 34u8, 47u8],
        default_mode: DefaultMode::Code,
        structured_format: StructuredFormat::Text,
        leading_doc_prefixes: seq![],
    }
}

/// Vala (// ... newline; /* ... */; " ... ").
fn define_vala() -> (l: LanguageDef)
    ensures
        l@ == vala_view(),
{
    let mut regions: Vec<Region> = Vec::new();
    regions.push(comment_region(vec![47u8, 47u8], vec![10u8], false, false));
    regions.push(comment_region(vec![47u8, 42u8], vec![42u8, 47u8], false, false));
    regions.push(string_region(vec![34u8], vec![34u8], true));
    let mut prefixes: Vec<Vec<u8>> = Vec::new();
    let l = LanguageDef {
        name: "Vala",
        regions,
        interest_bytes: vec![10u8, 34u8, 47u8],
        default_mode: DefaultMode::Code,
        structured_format: StructuredFormat::Text,
        leading_doc_prefixes: prefixes,
    };
    assert(l@ =~~= vala_view());
    l
}

/// Verilog.
pub open spec fn verilog_view() -> LanguageView {
    LanguageView {
        name: "Verilog",
        regions: seq![comment_view(seq![47u8, 47u8], seq![10u8], false, false), comment_view(seq![47u8, 42u8], seq![42u8, 47u8], false, false), string_view(seq![34u8], seq![34u8], true)],
        interest_bytes: seq![10u8, 34u8, 47u8],
        default_mode: DefaultMode::Code,
        structured_format: StructuredFormat::Text,
        leading_doc_prefixes: seq![],
    }
}

/// Verilog (// ... newline; /* ... */; " ... ").
fn define_verilog() -> (l: LanguageDef)
    ensures
        l@ == verilog_view(),
{
    let mut regions: Vec<Region> = Vec::new();
    regions.push(comment_region(vec![47u8, 47u8], vec![10u8], false, false));
    regions.push(comment_region(vec![47u8, 42u8], vec![42u8, 47u8], false, false));
    regions.push(string_region(vec![34u8], vec![34u8], true));
    let mut prefixes: Vec<Vec<u8>> = Vec::new();
    let l = LanguageDef {
        name: "Verilog",
        regions,
        interest_bytes: vec![10u8, 34u8, 47u8],
        default_mode: DefaultMode::Code,
        structured_format: StructuredFormat::Text,
        leading_doc_prefixes: prefixes,
    };
    assert(l@ =~~= verilog_view());
    l
}

/// Verilog Args File.
pub open spec fn verilog_args_file_view() -> LanguageView {
    LanguageView {
        name: "Verilog Args File",
        regions: seq![],
        interest_bytes: seq![10u8],
        default_mode: DefaultMode::Code,
        structured_format: StructuredFormat::Text,
        leading_doc_prefixes: seq![],
    }
}

/// Verilog Args File (no regions).
fn define_verilog_args_file() -> (l: LanguageDef)
    ensures
        l@ == verilog_args_file_view(),
{
    let mut regions: Vec<Region> = Vec::new();
    let mut prefixes: Vec<Vec<u8>> = Vec::new();
    let l = LanguageDef {
        name: "Verilog Args File",
        regions,
        interest_bytes: vec![10u8],
        default_mode: DefaultMode::Code,
        structured_format: StructuredFormat::Text,
        leading_doc_prefixes: prefixes,
    };
    assert(l@ =~~= verilog_args_file_view());
    l
}

/// Vim script.
pub open spec fn vim_script_view() -> LanguageView {
    LanguageView {
        name: "Vim script",
        regions: seq![comment_view(seq![34u8], seq![10u8], false, false), string_view(seq![39u8], seq![39u8], true)],
        interest_bytes: seq![10u8, 34u8, 39u8],
        default_mode: DefaultMode::Code,
        structured_format: StructuredFormat::Text,
        leading_doc_prefixes: seq![],
    }
}

/// Vim script (" ... newline; ' ... ').
fn define_vim_script() -> (l: LanguageDef)
    ensures
        l@ == vim_script_view(),
{
    let mut regions: Vec<Region> = Vec::new();
    regions.push(comment_region(vec![34u8], vec![10u8], false, false));
    regions.push(string_region(vec![39u8], vec![39u8], true));
    let mut prefixes: Vec<Vec<u8>> = Vec::new();
    let l = LanguageDef {
        name: "Vim script",
        regions,
        interest_bytes: vec![10u8, 34u8, 39u8],
        default_mode: DefaultMode::Code,
        structured_format: StructuredFormat::Text,
        leading_doc_prefixes: prefixes,
    };
    assert(l@ =~~= vim_script_view());
    l
}

/// Visual Basic.
pub open spec fn visual_basic_view() -> LanguageView {
    LanguageView {
        name: "Visual Basic",
        regions: seq![comment_view(seq![39u8], seq![10u8], false, false), string_view(seq![34u8], seq![34u8], true)],
        interest_bytes: seq![10u8, 34u8, 39u8],
        default_mode: DefaultMode::Code,
        structured_format: StructuredFormat::Text,
        leading_doc_prefixes: seq![],
    }
}

/// Visual Basic (' ... newline; " ... ").
fn define_visual_basic() -> (l: LanguageDef)
    ensures
        l@ == visual_basic_view(),
{
    let mut regions: Vec<Region> = Vec::new();
    regions.push(comment_region(vec![39u8], vec![10u8], false, false));
    regions.push(string_region(vec![34u8], vec![34u8], true));
    let mut prefixes: Vec<Vec<u8>> = Vec::new();
    let l = LanguageDef {
        name: "Visual Basic",
        regions,
        interest_bytes: vec![10u8, 34u8, 39u8],
        default_mode: DefaultMode::Code,
        structured_format: StructuredFormat::Text,
        leading_doc_prefixes: prefixes,
    };
    assert(l@ =~~= visual_basic_view());
    l
}

/// Visual Studio Project.
pub open spec fn visual_studio_project_view() -> LanguageView {
    LanguageView {
        name: "Visual Studio Project",
        regions: seq![comment_view(seq![60u8, 33u8, 45u8, 45u8], seq![45u8, 45u8, 62u8], false, false), string_view(seq![34u8], seq![34u8], true), string_view(seq![39u8], seq![39u8], true)],
        interest_bytes: seq![10u8, 34u8, 39u8, 60u8],
        default_mode: DefaultMode::Code,
        structured_format: StructuredFormat::Text,
        leading_doc_prefixes: seq![],
    }
}

/// Visual Studio Project (<!-- ... -->; " ... "; ' ... ').
fn define_visual_studio_project() -> (l: LanguageDef)
    ensures
        l@ == visual_studio_project_view(),
{
    let mut regions: Vec<Region> = Vec::new();
    regions.push(comment_region(vec![60u8, 33u8, 45u8, 45u8], vec![45u8, 45u8, 62u8], false, false));
    regions.push(string_region(vec![34u8], vec![34u8], true));
    regions.push(string_region(vec![39u8], vec![39u8], true));
    let mut prefixes: Vec<Vec<u8>> = Vec::new();
    let l = LanguageDef {
        name: "Visual Studio Project",
        regions,
        interest_bytes: vec![10u8, 34u8, 39u8, 60u8],
        default_mode: DefaultMode::Code,
        structured_format: StructuredFormat::Text,
        leading_doc_prefixes: prefixes,
    };
    assert(l@ =~~= visual_studio_project_view());
    l
}

/// Visual Studio Solution.
pub open spec fn visual_studio_solution_view() -> LanguageView {
    LanguageView {
        name: "Visual Studio Solution",
        regions: seq![],
        interest_bytes: seq![10u8],
        default_mode: DefaultMode::Code,
        structured_format: StructuredFormat::Text,
        leading_doc_prefixes: seq![],
    }
}

/// Visual Studio Solution (no regions).
fn define_visual_studio_solution() -> (l: LanguageDef)
    ensures
        l@ == visual_studio_solution_view(),
{
    let mut regions: Vec<Region> = Vec::new();
    let mut prefixes: Vec<Vec<u8>> = Vec::new();
    let l = LanguageDef {
        name: "Visual Studio Solution",
        regions,
        interest_bytes: vec![10u8],
        default_mode: DefaultMode::Code,
        structured_format: StructuredFormat::Text,
        leading_doc_prefixes: prefixes,
    };
    assert(l@ =~~= visual_studio_solution_view());
    l
}

/// Vue.
pub open spec fn vue_view() -> LanguageView {
    LanguageView {
        name: "Vue",
        regions: seq![comment_view(seq![60u8, 33u8, 45u8, 45u8], seq![45u8, 45u8, 62u8], false, false), comment_view(seq![47u8, 47u8], seq![10u8], false, false), comment_view(seq![47u8, 42u8], seq![42u8, 47u8], false, false), string_view(seq![34u8], seq![34u8], true), string_view(seq![39u8], seq![39u8], true), string_view(seq![96u8], seq![96u8], true)],
        interest_bytes: seq![10u8, 34u8, 39u8, 47u8, 60u8, 96u8],
        default_mode: DefaultMode::Code,
        structured_format: StructuredFormat::Text,
        leading_doc_prefixes: seq![],
    }
}

/// Vue (<!-- ... -->; // ... newline; /* ... */; " ... "; ' ... '; ' ... ').
fn define_vue() -> (l: LanguageDef)
    ensures
        l@ == vue_view(),
{
    let mut regions: Vec<Region> = Vec::new();
    regions.push(comment_region(vec![60u8, 33u8, 45u8, 45u8], vec![45u8, 45u8, 62u8], false, false));
    regions.push(comment_region(vec![47u8, 47u8], vec![10u8], false, false));
    regions.push(comment_region(vec![47u8, 42u8], vec![42u8, 47u8], false, false));
    regions.push(string_region(vec![34u8], vec![34u8], true));
    regions.push(string_region(vec![39u8], vec![39u8], true));
    regions.push(string_region(vec![96u8], vec![96u8], true));
    let mut prefixes: Vec<Vec<u8>> = Vec::new();
    let l = LanguageDef {
        name: "Vue",
        regions,
        interest_bytes: vec![10u8, 34u8, 39u8, 47u8, 60u8, 96u8],
        default_mode: DefaultMode::Code,
        structured_format: StructuredFormat::Text,
        leading_doc_prefixes: prefixes,
    };
    assert(l@ =~~= vue_view());
    l
}

/// WebAssembly.
pub open spec fn webassembly_view() -> LanguageView {
    LanguageView {
        name: "WebAssembly",
        regions: seq![comment_view(seq![59u8, 59u8], seq![10u8], false, false), string_view(seq![34u8], seq![34u8], true), string_view(seq![39u8], seq![39u8], true)],
        interest_bytes: seq![10u8, 34u8, 39u8, 59u8],
        default_mode: DefaultMode::Code,
        structured_format: StructuredFormat::Text,
        leading_doc_prefixes: seq![],
    }
}

/// WebAssembly (;; ... newline; " ... "; ' ... ').
fn define_webassembly() -> (l: LanguageDef)
    ensures
        l@ == webassembly_view(),
{
    let mut regions: Vec<Region> = Vec::new();
    regions.push(comment_region(vec![59u8, 59u8], vec![10u8], false, false));
    regions.push(string_region(vec![34u8], vec![34u8], true));
    regions.push(string_region(vec![39u8], vec![39u8], true));
    let mut prefixes: Vec<Vec<u8>> = Vec::new();
    let l = LanguageDef {
        name: "WebAssembly",
        regions,
        interest_bytes: vec![10u8, 34u8, 39u8, 59u8],
        default_mode: DefaultMode::Code,
        structured_format: StructuredFormat::Text,
        leading_doc_prefixes: prefixes,
    };
    assert(l@ =~~= webassembly_view());
    l
}

/// Wolfram.
pub open spec fn wolfram_view() -> LanguageView {
    LanguageView {
        name: "Wolfram",
        regions: seq![comment_view(seq![40u8, 42u8], seq![42u8, 41u8], false, false), string_view(seq![34u8], seq![34u8], true)],
        interest_bytes: seq![10u8, 34u8, 40u8],
        default_mode: DefaultMode::Code,
        structured_format: StructuredFormat::Text,
        leading_doc_prefixes: seq![],
    }
}

/// Wolfram ((* ... *); " ... ").
fn define_wolfram() -> (l: LanguageDef)
    ensures
        l@ == wolfram_view(),
{
    let mut regions: Vec<Region> = Vec::new();
    regions.push(comment_region(vec![40u8, 42u8], vec![42u8, 41u8], false, false));
    regions.push(string_region(vec![34u8], vec![34u8], true));
    let mut prefixes: Vec<Vec<u8>> = Vec::new();
    let l = LanguageDef {
        name: "Wolfram",
        regions,
        interest_bytes: vec![10u8, 34u8, 40u8],
        default_mode: DefaultMode::Code,
        structured_format: StructuredFormat::Text,
        leading_doc_prefixes: prefixes,
    };
    assert(l@ =~~= wolfram_view());
    l
}

/// XAML.
pub open spec fn xaml_view() -> LanguageView {
    LanguageView {
        name: "XAML",
        regions: seq![comment_view(seq![60u8, 33u8, 45u8, 45u8], seq![45u8, 45u8, 62u8], false, false), string_view(seq![34u8], seq![34u8], true), string_view(seq![39u8], seq![39u8], true)],
        interest_bytes: seq![10u8, 34u8, 39u8, 60u8],
        default_mode: DefaultMode::Code,
        structured_format: StructuredFormat::Text,
        leading_doc_prefixes: seq![],
    }
}

/// XAML (<!-- ... -->; " ... "; ' ... ').
fn define_xaml() -> (l: LanguageDef)
    ensures
        l@ == xaml_view(),
{
    let mut regions: Vec<Region> = Vec::new();
    regions.push(comment_region(vec![60u8, 33u8, 45u8, 45u8], vec![45u8, 45u8, 62u8], false, false));
    regions.push(string_region(vec![34u8], vec![34u8], true));
    regions.push(string_region(vec![39u8], vec![39u8], true));
    let mut prefixes: Vec<Vec<u8>> = Vec::new();
    let l = LanguageDef {
        name: "XAML",
        regions,
        interest_bytes: vec![10u8, 34u8, 39u8, 60u8],
        default_mode: DefaultMode::Code,
        structured_format: StructuredFormat::Text,
        leading_doc_prefixes: prefixes,
    };
    assert(l@ =~~= xaml_view());
    l
}

/// XML.
pub open spec fn xml_view() -> LanguageView {
    LanguageView {
        name: "XML",
        regions: seq![comment_view(seq![60u8, 33u8, 45u8, 45u8], seq![45u8, 45u8, 62u8], false, false), string_view(seq![34u8], seq![34u8], true), string_view(seq![39u8], seq![39u8], true)],
        interest_bytes: seq![10u8, 34u8, 39u8, 60u8],
        default_mode: DefaultMode::Code,
        structured_format: StructuredFormat::Text,
        leading_doc_prefixes: seq![],
    }
}

/// XML (<!-- ... -->; " ... "; ' ... ').
fn define_xml() -> (l: LanguageDef)
    ensures
        l@ == xml_view(),
{
    let mut regions: Vec<Region> = Vec::new();
    regions.push(comment_region(vec![60u8, 33u8, 45u8, 45u8], vec![45u8, 45u8, 62u8], false, false));
    regions.push(string_region(vec![34u8], vec![34u8], true));
    regions.push(string_region(vec![39u8], vec![39u8], true));
    let mut prefixes: Vec<Vec<u8>> = Vec::new();
    let l = LanguageDef {
        name: "XML",
        regions,
        interest_bytes: vec![10u8, 34u8, 39u8, 60u8],
        default_mode: DefaultMode::Code,
        structured_format: StructuredFormat::Text,
        leading_doc_prefixes: prefixes,
    };
    assert(l@ =~~= xml_view());
    l
}

/// XSL.
pub open spec fn xsl_view() -> LanguageView {
    LanguageView {
        name: "XSL",
        regions: seq![comment_view(seq![60u8, 33u8, 45u8, 45u8], seq![45u8, 45u8, 62u8], false, false), string_view(seq![34u8], seq![34u8], true), string_view(seq![39u8], seq![39u8], true)],
        interest_bytes: seq![10u8, 34u8, 39u8, 60u8],
        default_mode: DefaultMode::Code,
        structured_format: StructuredFormat::Text,
        leading_doc_prefixes: seq![],
    }
}

/// XSL (<!-- ... -->; " ... "; ' ... ').
fn define_xsl() -> (l: LanguageDef)
    ensures
        l@ == xsl_view(),
{
    let mut regions: Vec<Region> = Vec::new();
    regions.push(comment_region(vec![60u8, 33u8, 45u8, 45u8], vec![45u8, 45u8, 62u8], false, false));
    regions.push(string_region(vec![34u8], vec![34u8], true));
    regions.push(string_region(vec![39u8], vec![39u8], true));
    let mut prefixes: Vec<Vec<u8>> = Vec::new();
    let l = LanguageDef {
        name: "XSL",
        regions,
        interest_bytes: vec![10u8, 34u8, 39u8, 60u8],
        default_mode: DefaultMode::Code,
        structured_format: StructuredFormat::Text,
        leading_doc_prefixes: prefixes,
    };
    assert(l@ =~~= xsl_view());
    l
}

/// Xcode Config.
pub open spec fn xcode_config_view() -> LanguageView {
    LanguageView {
        name: "Xcode Config",
        regions: seq![comment_view(seq![47u8, 47u8], seq![10u8], false, false), string_view(seq![34u8], seq![34u8], true), string_view(seq![39u8], seq![39u8], true)],
        interest_bytes: seq![10u8, 34u8, 39u8, 47u8],
        default_mode: DefaultMode::Code,
        structured_format: StructuredFormat::Text,
        leading_doc_prefixes: seq![],
    }
}

/// Xcode Config (// ... newline; " ... "; ' ... ').
fn define_xcode_config() -> (l: LanguageDef)
    ensures
        l@ == xcode_config_view(),
{
    let mut regions: Vec<Region> = Vec::new();
    regions.push(comment_region(vec![47u8, 47u8], vec![10u8], false, false));
    regions.push(string_region(vec![34u8], vec![34u8], true));
    regions.push(string_region(vec![39u8], vec![39u8], true));
    let mut prefixes: Vec<Vec<u8>> = Vec::new();
    let l = LanguageDef {
        name: "Xcode Config",
        regions,
        interest_bytes: vec![10u8, 34u8, 39u8, 47u8],
        default_mode: DefaultMode::Code,
        structured_format: StructuredFormat::Text,
        leading_doc_prefixes: prefixes,
    };
    assert(l@ =~~= xcode_config_view());
    l
}

/// Xtend.
pub open spec fn xtend_view() -> LanguageView {
    LanguageView {
        name: "Xtend",
        regions: seq![string_view(seq![39u8, 39u8, 39u8], seq![39u8, 39u8, 39u8], true), comment_view(seq![47u8, 47u8], seq![10u8], false, false), comment_view(seq![47u8, 42u8], seq![42u8, 47u8], false, false), string_view(seq![34u8], seq![34u8], true), string_view(seq![39u8], seq![39u8], true)],
        interest_bytes: seq![10u8, 34u8, 39u8, 47u8],
        default_mode: DefaultMode::Code,
        structured_format: StructuredFormat::Text,
        leading_doc_prefixes: seq![],
    }
}

/// Xtend (''' ... '''; // ... newline; /* ... */; " ... "; ' ... ').
fn define_xtend() -> (l: LanguageDef)
    ensures
        l@ == xtend_view(),
{
    let mut regions: Vec<Region> = Vec::new();
    regions.push(string_region(vec![39u8, 39u8, 39u8], vec![39u8, 39u8, 39u8], true));
    regions.push(comment_region(vec![47u8, 47u8], vec![10u8], false, false));
    regions.push(comment_region(vec![47u8, 42u8], vec![42u8, 47u8], false, false));
    regions.push(string_region(vec![34u8], vec![34u8], true));
    regions.push(string_region(vec![39u8], vec![39u8], true));
    let mut prefixes: Vec<Vec<u8>> = Vec::new();
    let l = LanguageDef {
        name: "Xtend",
        regions,
        interest_bytes: vec![10u8, 34u8, 39u8, 47u8],
        default_mode: DefaultMode::Code,
        structured_format: StructuredFormat::Text,
        leading_doc_prefixes: prefixes,
    };
    assert(l@ =~~= xtend_view());
    l
}

/// YAML.
pub open spec fn yaml_view() -> LanguageView {
    LanguageView {
        name: "YAML",
        regions: seq![comment_view(seq![35u8], seq![10u8], false, false), string_view(seq![34u8], seq![34u8], true), string_view(seq![39u8], seq![39u8], false)],
        interest_bytes: seq![10u8, 34u8, 35u8, 39u8],
        default_mode: DefaultMode::Code,
        structured_format: StructuredFormat::Text,
        leading_doc_prefixes: seq![],
    }
}

/// YAML (# ... newline; " ... "; ' ... ').
fn define_yaml() -> (l: LanguageDef)
    ensures
        l@ == yaml_view(),
{
    let mut regions: Vec<Region> = Vec::new();
    regions.push(comment_region(vec![35u8], vec![10u8], false, false));
    regions.push(string_region(vec![34u8], vec![34u8], true));
    regions.push(string_region(vec![39u8], vec![39u8], false));
    let mut prefixes: Vec<Vec<u8>> = Vec::new();
    let l = LanguageDef {
        name: "YAML",
        regions,
        interest_bytes: vec![10u8, 34u8, 35u8, 39u8],
        default_mode: DefaultMode::Code,
        structured_format: StructuredFormat::Text,
        leading_doc_prefixes: prefixes,
    };
    assert(l@ =~~= yaml_view());
    l
}

/// Zig.
pub open spec fn zig_view() -> LanguageView {
    LanguageView {
        name: "Zig",
        regions: seq![comment_view(seq![47u8, 47u8], seq![10u8], false, false), string_view(seq![34u8], seq![34u8], true)],
        interest_bytes: seq![10u8, 34u8, 47u8],
        default_mode: DefaultMode::Code,
        structured_format: StructuredFormat::Text,
        leading_doc_prefixes: seq![],
    }
}

/// Zig (// ... newline; " ... ").
fn define_zig() -> (l: LanguageDef)
    ensures
        l@ == zig_view(),
{
    let mut regions: Vec<Region> = Vec::new();
    regions.push(comment_region(vec![47u8, 47u8], vec![10u8], false, false));
    regions.push(string_region(vec![34u8], vec![34u8], true));
    let mut prefixes: Vec<Vec<u8>> = Vec::new();
    let l = LanguageDef {
        name: "Zig",
        regions,
        interest_bytes: vec![10u8, 34u8, 47u8],
        default_mode: DefaultMode::Code,
        structured_format: StructuredFormat::Text,
        leading_doc_prefixes: prefixes,
    };
    assert(l@ =~~= zig_view());
    l
}

/// Zsh.
pub open spec fn zsh_view() -> LanguageView {
    LanguageView {
        name: "Zsh",
        regions: seq![comment_view(seq![35u8], seq![10u8], false, false), string_view(seq![34u8], seq![34u8], true), string_view(seq![39u8], seq![39u8], true)],
        interest_bytes: seq![10u8, 34u8, 35u8, 39u8],
        default_mode: DefaultMode::Code,
        structured_format: StructuredFormat::Text,
        leading_doc_prefixes: seq![],
    }
}

/// Zsh (# ... newline; " ... "; ' ... ').
fn define_zsh() -> (l: LanguageDef)
    ensures
        l@ == zsh_view(),
{
    let mut regions: Vec<Region> = Vec::new();
    regions.push(comment_region(vec![35u8], vec![10u8], false, false));
    regions.push(string_region(vec![34u8], vec![34u8], true));
    regions.push(string_region(vec![39u8], vec![39u8], true));
    let mut prefixes: Vec<Vec<u8>> = Vec::new();
    let l = LanguageDef {
        name: "Zsh",
        regions,
        interest_bytes: vec![10u8, 34u8, 35u8, 39u8],
        default_mode: DefaultMode::Code,
        structured_format: StructuredFormat::Text,
        leading_doc_prefixes: prefixes,
    };
    assert(l@ =~~= zsh_view());
    l
}

/// Languages 0 to 31 of the library.
pub open spec fn language_view_part_0(id: int) -> LanguageView {
    if id == 0 {
        dotnet_resource_view()
    } else if id == 1 {
        abap_view()
    } else if id == 2 {
        abnf_view()
    } else if id == 3 {
        asn_1_view()
    } else if id == 4 {
        asp_view()
    } else if id == 5 {
        asp_net_view()
    } else if id == 6 {
        actionscript_view()
    } else if id == 7 {
        ada_view()
    } else if id == 8 {
        agda_view()
    } else if id == 9 {
        alex_view()
    } else if id == 10 {
        alloy_view()
    } else if id == 11 {
        apache_velocity_view()
    } else if id == 12 {
        arduino_cpp_view()
    } else if id == 13 {
        asciidoc_view()
    } else if id == 14 {
        assembly_view()
    } else if id == 15 {
        autohotkey_view()
    } else if id == 16 {
        autoconf_view()
    } else if id == 17 {
        automake_view()
    } else if id == 18 {
        bash_view()
    } else if id == 19 {
        batch_view()
    } else if id == 20 {
        bean_view()
    } else if id == 21 {
        brightscript_view()
    } else if id == 22 {
        c_view()
    } else if id == 23 {
        c_header_view()
    } else if id == 24 {
        c_shell_view()
    } else if id == 25 {
        csharp_view()
    } else if id == 26 {
        cpp_view()
    } else if id == 27 {
        cpp_header_view()
    } else if id == 28 {
        cmake_view()
    } else if id == 29 {
        cobol_view()
    } else if id == 30 {
        css_view()
    } else {
        cabal_view()
    }
}

/// Languages 32 to 63 of the library.
pub open spec fn language_view_part_1(id: int) -> LanguageView {
    if id == 32 {
        cassius_view()
    } else if id == 33 {
        ceylon_view()
    } else if id == 34 {
        clojure_view()
    } else if id == 35 {
        clojurec_view()
    } else if id == 36 {
        clojurescript_view()
    } else if id == 37 {
        codeql_view()
    } else if id == 38 {
        coffeescript_view()
    } else if id == 39 {
        cogent_view()
    } else if id == 40 {
        coldfusion_view()
    } else if id == 41 {
        coldfusion_cfscript_view()
    } else if id == 42 {
        coq_view()
    } else if id == 43 {
        crystal_view()
    } else if id == 44 {
        d_view()
    } else if id == 45 {
        daml_view()
    } else if id == 46 {
        dart_view()
    } else if id == 47 {
        device_tree_view()
    } else if id == 48 {
        dhall_view()
    } else if id == 49 {
        dockerfile_view()
    } else if id == 50 {
        dream_maker_view()
    } else if id == 51 {
        dust_js_view()
    } else if id == 52 {
        edn_view()
    } else if id == 53 {
        elixir_view()
    } else if id == 54 {
        elm_view()
    } else if id == 55 {
        elvish_view()
    } else if id == 56 {
        emacs_dev_env_view()
    } else if id == 57 {
        emacs_lisp_view()
    } else if id == 58 {
        emojicode_view()
    } else if id == 59 {
        erlang_view()
    } else if id == 60 {
        fsharp_view()
    } else if id == 61 {
        f_view()
    } else if id == 62 {
        fen_view()
    } else {
        fortran_legacy_view()
    }
}

/// Languages 64 to 95 of the library.
pub open spec fn language_view_part_2(id: int) -> LanguageView {
    if id == 64 {
        fortran_modern_view()
    } else if id == 65 {
        fish_view()
    } else if id == 66 {
        flatbuffers_schema_view()
    } else if id == 67 {
        forth_view()
    } else if id == 68 {
        freemarker_view()
    } else if id == 69 {
        futhark_view()
    } else if id == 70 {
        gdb_script_view()
    } else if id == 71 {
        gdscript_view()
    } else if id == 72 {
        glsl_view()
    } else if id == 73 {
        gnu_style_assembly_view()
    } else if id == 74 {
        gherkin_cucumber_view()
    } else if id == 75 {
        gleam_view()
    } else if id == 76 {
        go_view()
    } else if id == 77 {
        go_html_view()
    } else if id == 78 {
        graphql_view()
    } else if id == 79 {
        groovy_view()
    } else if id == 80 {
        gwion_view()
    } else if id == 81 {
        hcl_view()
    } else if id == 82 {
        hex_view()
    } else if id == 83 {
        hlsl_view()
    } else if id == 84 {
        html_view()
    } else if id == 85 {
        hamlet_view()
    } else if id == 86 {
        handlebars_view()
    } else if id == 87 {
        happy_view()
    } else if id == 88 {
        haskell_view()
    } else if id == 89 {
        haxe_view()
    } else if id == 90 {
        headache_view()
    } else if id == 91 {
        holyc_view()
    } else if id == 92 {
        ini_view()
    } else if id == 93 {
        idris_view()
    } else if id == 94 {
        intel_hex_view()
    } else {
        isabelle_view()
    }
}

/// Languages 96 to 127 of the library.
pub open spec fn language_view_part_3(id: int) -> LanguageView {
    if id == 96 {
        jai_view()
    } else if id == 97 {
        json_view()
    } else if id == 98 {
        jsx_view()
    } else if id == 99 {
        java_view()
    } else if id == 100 {
        javascript_view()
    } else if id == 101 {
        jsonnet_view()
    } else if id == 102 {
        julia_view()
    } else if id == 103 {
        julius_view()
    } else if id == 104 {
        jupyter_notebooks_view()
    } else if id == 105 {
        k_view()
    } else if id == 106 {
        kakoune_script_view()
    } else if id == 107 {
        kotlin_view()
    } else if id == 108 {
        ld_script_view()
    } else if id == 109 {
        less_view()
    } else if id == 110 {
        llvm_view()
    } else if id == 111 {
        lean_view()
    } else if id == 112 {
        liquid_view()
    } else if id == 113 {
        lisp_view()
    } else if id == 114 {
        livescript_view()
    } else if id == 115 {
        logtalk_view()
    } else if id == 116 {
        lua_view()
    } else if id == 117 {
        lucius_view()
    } else if id == 118 {
        msbuild_view()
    } else if id == 119 {
        madlang_view()
    } else if id == 120 {
        makefile_view()
    } else if id == 121 {
        markdown_view()
    } else if id == 122 {
        meson_view()
    } else if id == 123 {
        mint_view()
    } else if id == 124 {
        module_definition_view()
    } else if id == 125 {
        moonscript_view()
    } else if id == 126 {
        mustache_view()
    } else {
        nim_view()
    }
}

/// Languages 128 to 159 of the library.
pub open spec fn language_view_part_4(id: int) -> LanguageView {
    if id == 128 {
        nix_view()
    } else if id == 129 {
        not_quite_perl_view()
    } else if id == 130 {
        ocaml_view()
    } else if id == 131 {
        objective_c_view()
    } else if id == 132 {
        objective_cpp_view()
    } else if id == 133 {
        odin_view()
    } else if id == 134 {
        opentype_feature_file_view()
    } else if id == 135 {
        org_view()
    } else if id == 136 {
        oz_view()
    } else if id == 137 {
        php_view()
    } else if id == 138 {
        psl_assertion_view()
    } else if id == 139 {
        pan_view()
    } else if id == 140 {
        pascal_view()
    } else if id == 141 {
        perl_view()
    } else if id == 142 {
        pest_view()
    } else if id == 143 {
        plain_text_view()
    } else if id == 144 {
        polly_view()
    } else if id == 145 {
        pony_view()
    } else if id == 146 {
        postcss_view()
    } else if id == 147 {
        powershell_view()
    } else if id == 148 {
        processing_view()
    } else if id == 149 {
        prolog_view()
    } else if id == 150 {
        protocol_buffers_view()
    } else if id == 151 {
        pug_view()
    } else if id == 152 {
        purescript_view()
    } else if id == 153 {
        python_view()
    } else if id == 154 {
        q_view()
    } else if id == 155 {
        qcl_view()
    } else if id == 156 {
        qml_view()
    } else if id == 157 {
        r_view()
    } else if id == 158 {
        rpm_specfile_view()
    } else {
        racket_view()
    }
}

/// Languages 160 to 191 of the library.
pub open spec fn language_view_part_5(id: int) -> LanguageView {
    if id == 160 {
        rakefile_view()
    } else if id == 161 {
        rakudo_view()
    } else if id == 162 {
        razor_view()
    } else if id == 163 {
        restructuredtext_view()
    } else if id == 164 {
        ren_py_view()
    } else if id == 165 {
        ruby_view()
    } else if id == 166 {
        ruby_html_view()
    } else if id == 167 {
        rust_view()
    } else if id == 168 {
        rusty_object_notation_view()
    } else if id == 169 {
        sql_view()
    } else if id == 170 {
        srecode_template_view()
    } else if id == 171 {
        svg_view()
    } else if id == 172 {
        swig_view()
    } else if id == 173 {
        sass_view()
    } else if id == 174 {
        scala_view()
    } else if id == 175 {
        scheme_view()
    } else if id == 176 {
        scons_view()
    } else if id == 177 {
        shell_view()
    } else if id == 178 {
        solidity_view()
    } else if id == 179 {
        specman_e_view()
    } else if id == 180 {
        spice_netlist_view()
    } else if id == 181 {
        stan_view()
    } else if id == 182 {
        standard_ml_sml_view()
    } else if id == 183 {
        stratego_xt_view()
    } else if id == 184 {
        stylus_view()
    } else if id == 185 {
        svelte_view()
    } else if id == 186 {
        swift_view()
    } else if id == 187 {
        systemverilog_view()
    } else if id == 188 {
        tcl_view()
    } else if id == 189 {
        toml_view()
    } else if id == 190 {
        tsx_view()
    } else {
        ttcn_3_view()
    }
}

/// Languages 192 to 223 of the library.
pub open spec fn language_view_part_6(id: int) -> LanguageView {
    if id == 192 {
        tex_view()
    } else if id == 193 {
        tera_view()
    } else if id == 194 {
        thrift_view()
    } else if id == 195 {
        twig_view()
    } else if id == 196 {
        typescript_view()
    } else if id == 197 {
        unreal_markdown_view()
    } else if id == 198 {
        unreal_plugin_view()
    } else if id == 199 {
        unreal_project_view()
    } else if id == 200 {
        unreal_script_view()
    } else if id == 201 {
        unreal_shader_view()
    } else if id == 202 {
        unreal_shader_header_view()
    } else if id == 203 {
        ur_web_view()
    } else if id == 204 {
        ur_web_project_view()
    } else if id == 205 {
        vb6_view()
    } else if id == 206 {
        vbscript_view()
    } else if id == 207 {
        vhdl_view()
    } else if id == 208 {
        vala_view()
    } else if id == 209 {
        verilog_view()
    } else if id == 210 {
        verilog_args_file_view()
    } else if id == 211 {
        vim_script_view()
    } else if id == 212 {
        visual_basic_view()
    } else if id == 213 {
        visual_studio_project_view()
    } else if id == 214 {
        visual_studio_solution_view()
    } else if id == 215 {
        vue_view()
    } else if id == 216 {
        webassembly_view()
    } else if id == 217 {
        wolfram_view()
    } else if id == 218 {
        xaml_view()
    } else if id == 219 {
        xml_view()
    } else if id == 220 {
        xsl_view()
    } else if id == 221 {
        xcode_config_view()
    } else if id == 222 {
        xtend_view()
    } else {
        yaml_view()
    }
}

/// Languages 224 to 225 of the library.
pub open spec fn language_view_part_7(id: int) -> LanguageView {
    if id == 224 {
        zig_view()
    } else {
        zsh_view()
    }
}

/// The definition of language `id` of the library.
#[verifier::opaque]
pub open spec fn language_view(id: int) -> LanguageView {
    if id < 32 {
        language_view_part_0(id)
    } else if id < 64 {
        language_view_part_1(id)
    } else if id < 96 {
        language_view_part_2(id)
    } else if id < 128 {
        language_view_part_3(id)
    } else if id < 160 {
        language_view_part_4(id)
    } else if id < 192 {
        language_view_part_5(id)
    } else if id < 224 {
        language_view_part_6(id)
    } else {
        language_view_part_7(id)
    }
}

fn language_part_0(id: usize) -> (l: LanguageDef)
    requires
        0 <= id < 32,
    ensures
        l@ == language_view(id as int),
{
    reveal(language_view);
    if id == 0 {
        define_dotnet_resource()
    } else if id == 1 {
        define_abap()
    } else if id == 2 {
        define_abnf()
    } else if id == 3 {
        define_asn_1()
    } else if id == 4 {
        define_asp()
    } else if id == 5 {
        define_asp_net()
    } else if id == 6 {
        define_actionscript()
    } else if id == 7 {
        define_ada()
    } else if id == 8 {
        define_agda()
    } else if id == 9 {
        define_alex()
    } else if id == 10 {
        define_alloy()
    } else if id == 11 {
        define_apache_velocity()
    } else if id == 12 {
        define_arduino_cpp()
    } else if id == 13 {
        define_asciidoc()
    } else if id == 14 {
        define_assembly()
    } else if id == 15 {
        define_autohotkey()
    } else if id == 16 {
        define_autoconf()
    } else if id == 17 {
        define_automake()
    } else if id == 18 {
        define_bash()
    } else if id == 19 {
        define_batch()
    } else if id == 20 {
        define_bean()
    } else if id == 21 {
        define_brightscript()
    } else if id == 22 {
        define_c()
    } else if id == 23 {
        define_c_header()
    } else if id == 24 {
        define_c_shell()
    } else if id == 25 {
        define_csharp()
    } else if id == 26 {
        define_cpp()
    } else if id == 27 {
        define_cpp_header()
    } else if id == 28 {
        define_cmake()
    } else if id == 29 {
        define_cobol()
    } else if id == 30 {
        define_css()
    } else {
        define_cabal()
    }
}

fn language_part_1(id: usize) -> (l: LanguageDef)
    requires
        32 <= id < 64,
    ensures
        l@ == language_view(id as int),
{
    reveal(language_view);
    if id == 32 {
        define_cassius()
    } else if id == 33 {
        define_ceylon()
    } else if id == 34 {
        define_clojure()
    } else if id == 35 {
        define_clojurec()
    } else if id == 36 {
        define_clojurescript()
    } else if id == 37 {
        define_codeql()
    } else if id == 38 {
        define_coffeescript()
    } else if id == 39 {
        define_cogent()
    } else if id == 40 {
        define_coldfusion()
    } else if id == 41 {
        define_coldfusion_cfscript()
    } else if id == 42 {
        define_coq()
    } else if id == 43 {
        define_crystal()
    } else if id == 44 {
        define_d()
    } else if id == 45 {
        define_daml()
    } else if id == 46 {
        define_dart()
    } else if id == 47 {
        define_device_tree()
    } else if id == 48 {
        define_dhall()
    } else if id == 49 {
        define_dockerfile()
    } else if id == 50 {
        define_dream_maker()
    } else if id == 51 {
        define_dust_js()
    } else if id == 52 {
        define_edn()
    } else if id == 53 {
        define_elixir()
    } else if id == 54 {
        define_elm()
    } else if id == 55 {
        define_elvish()
    } else if id == 56 {
        define_emacs_dev_env()
    } else if id == 57 {
        define_emacs_lisp()
    } else if id == 58 {
        define_emojicode()
    } else if id == 59 {
        define_erlang()
    } else if id == 60 {
        define_fsharp()
    } else if id == 61 {
        define_f()
    } else if id == 62 {
        define_fen()
    } else {
        define_fortran_legacy()
    }
}

fn language_part_2(id: usize) -> (l: LanguageDef)
    requires
        64 <= id < 96,
    ensures
        l@ == language_view(id as int),
{
    reveal(language_view);
    if id == 64 {
        define_fortran_modern()
    } else if id == 65 {
        define_fish()
    } else if id == 66 {
        define_flatbuffers_schema()
    } else if id == 67 {
        define_forth()
    } else if id == 68 {
        define_freemarker()
    } else if id == 69 {
        define_futhark()
    } else if id == 70 {
        define_gdb_script()
    } else if id == 71 {
        define_gdscript()
    } else if id == 72 {
        define_glsl()
    } else if id == 73 {
        define_gnu_style_assembly()
    } else if id == 74 {
        define_gherkin_cucumber()
    } else if id == 75 {
        define_gleam()
    } else if id == 76 {
        define_go()
    } else if id == 77 {
        define_go_html()
    } else if id == 78 {
        define_graphql()
    } else if id == 79 {
        define_groovy()
    } else if id == 80 {
        define_gwion()
    } else if id == 81 {
        define_hcl()
    } else if id == 82 {
        define_hex()
    } else if id == 83 {
        define_hlsl()
    } else if id == 84 {
        define_html()
    } else if id == 85 {
        define_hamlet()
    } else if id == 86 {
        define_handlebars()
    } else if id == 87 {
        define_happy()
    } else if id == 88 {
        define_haskell()
    } else if id == 89 {
        define_haxe()
    } else if id == 90 {
        define_headache()
    } else if id == 91 {
        define_holyc()
    } else if id == 92 {
        define_ini()
    } else if id == 93 {
        define_idris()
    } else if id == 94 {
        define_intel_hex()
    } else {
        define_isabelle()
    }
}

fn language_part_3(id: usize) -> (l: LanguageDef)
    requires
        96 <= id < 128,
    ensures
        l@ == language_view(id as int),
{
    reveal(language_view);
    if id == 96 {
        define_jai()
    } else if id == 97 {
        define_json()
    } else if id == 98 {
        define_jsx()
    } else if id == 99 {
        define_java()
    } else if id == 100 {
        define_javascript()
    } else if id == 101 {
        define_jsonnet()
    } else if id == 102 {
        define_julia()
    } else if id == 103 {
        define_julius()
    } else if id == 104 {
        define_jupyter_notebooks()
    } else if id == 105 {
        define_k()
    } else if id == 106 {
        define_kakoune_script()
    } else if id == 107 {
        define_kotlin()
    } else if id == 108 {
        define_ld_script()
    } else if id == 109 {
        define_less()
    } else if id == 110 {
        define_llvm()
    } else if id == 111 {
        define_lean()
    } else if id == 112 {
        define_liquid()
    } else if id == 113 {
        define_lisp()
    } else if id == 114 {
        define_livescript()
    } else if id == 115 {
        define_logtalk()
    } else if id == 116 {
        define_lua()
    } else if id == 117 {
        define_lucius()
    } else if id == 118 {
        define_msbuild()
    } else if id == 119 {
        define_madlang()
    } else if id == 120 {
        define_makefile()
    } else if id == 121 {
        define_markdown()
    } else if id == 122 {
        define_meson()
    } else if id == 123 {
        define_mint()
    } else if id == 124 {
        define_module_definition()
    } else if id == 125 {
        define_moonscript()
    } else if id == 126 {
        define_mustache()
    } else {
        define_nim()
    }
}

fn language_part_4(id: usize) -> (l: LanguageDef)
    requires
        128 <= id < 160,
    ensures
        l@ == language_view(id as int),
{
    reveal(language_view);
    if id == 128 {
        define_nix()
    } else if id == 129 {
        define_not_quite_perl()
    } else if id == 130 {
        define_ocaml()
    } else if id == 131 {
        define_objective_c()
    } else if id == 132 {
        define_objective_cpp()
    } else if id == 133 {
        define_odin()
    } else if id == 134 {
        define_opentype_feature_file()
    } else if id == 135 {
        define_org()
    } else if id == 136 {
        define_oz()
    } else if id == 137 {
        define_php()
    } else if id == 138 {
        define_psl_assertion()
    } else if id == 139 {
        define_pan()
    } else if id == 140 {
        define_pascal()
    } else if id == 141 {
        define_perl()
    } else if id == 142 {
        define_pest()
    } else if id == 143 {
        define_plain_text()
    } else if id == 144 {
        define_polly()
    } else if id == 145 {
        define_pony()
    } else if id == 146 {
        define_postcss()
    } else if id == 147 {
        define_powershell()
    } else if id == 148 {
        define_processing()
    } else if id == 149 {
        define_prolog()
    } else if id == 150 {
        define_protocol_buffers()
    } else if id == 151 {
        define_pug()
    } else if id == 152 {
        define_purescript()
    } else if id == 153 {
        define_python()
    } else if id == 154 {
        define_q()
    } else if id == 155 {
        define_qcl()
    } else if id == 156 {
        define_qml()
    } else if id == 157 {
        define_r()
    } else if id == 158 {
        define_rpm_specfile()
    } else {
        define_racket()
    }
}

fn language_part_5(id: usize) -> (l: LanguageDef)
    requires
        160 <= id < 192,
    ensures
        l@ == language_view(id as int),
{
    reveal(language_view);
    if id == 160 {
        define_rakefile()
    } else if id == 161 {
        define_rakudo()
    } else if id == 162 {
        define_razor()
    } else if id == 163 {
        define_restructuredtext()
    } else if id == 164 {
        define_ren_py()
    } else if id == 165 {
        define_ruby()
    } else if id == 166 {
        define_ruby_html()
    } else if id == 167 {
        define_rust()
    } else if id == 168 {
        define_rusty_object_notation()
    } else if id == 169 {
        define_sql()
    } else if id == 170 {
        define_srecode_template()
    } else if id == 171 {
        define_svg()
    } else if id == 172 {
        define_swig()
    } else if id == 173 {
        define_sass()
    } else if id == 174 {
        define_scala()
    } else if id == 175 {
        define_scheme()
    } else if id == 176 {
        define_scons()
    } else if id == 177 {
        define_shell()
    } else if id == 178 {
        define_solidity()
    } else if id == 179 {
        define_specman_e()
    } else if id == 180 {
        define_spice_netlist()
    } else if id == 181 {
        define_stan()
    } else if id == 182 {
        define_standard_ml_sml()
    } else if id == 183 {
        define_stratego_xt()
    } else if id == 184 {
        define_stylus()
    } else if id == 185 {
        define_svelte()
    } else if id == 186 {
        define_swift()
    } else if id == 187 {
        define_systemverilog()
    } else if id == 188 {
        define_tcl()
    } else if id == 189 {
        define_toml()
    } else if id == 190 {
        define_tsx()
    } else {
        define_ttcn_3()
    }
}

fn language_part_6(id: usize) -> (l: LanguageDef)
    requires
        192 <= id < 224,
    ensures
        l@ == language_view(id as int),
{
    reveal(language_view);
    if id == 192 {
        define_tex()
    } else if id == 193 {
        define_tera()
    } else if id == 194 {
        define_thrift()
    } else if id == 195 {
        define_twig()
    } else if id == 196 {
        define_typescript()
    } else if id == 197 {
        define_unreal_markdown()
    } else if id == 198 {
        define_unreal_plugin()
    } else if id == 199 {
        define_unreal_project()
    } else if id == 200 {
        define_unreal_script()
    } else if id == 201 {
        define_unreal_shader()
    } else if id == 202 {
        define_unreal_shader_header()
    } else if id == 203 {
        define_ur_web()
    } else if id == 204 {
        define_ur_web_project()
    } else if id == 205 {
        define_vb6()
    } else if id == 206 {
        define_vbscript()
    } else if id == 207 {
        define_vhdl()
    } else if id == 208 {
        define_vala()
    } else if id == 209 {
        define_verilog()
    } else if id == 210 {
        define_verilog_args_file()
    } else if id == 211 {
        define_vim_script()
    } else if id == 212 {
        define_visual_basic()
    } else if id == 213 {
        define_visual_studio_project()
    } else if id == 214 {
        define_visual_studio_solution()
    } else if id == 215 {
        define_vue()
    } else if id == 216 {
        define_webassembly()
    } else if id == 217 {
        define_wolfram()
    } else if id == 218 {
        define_xaml()
    } else if id == 219 {
        define_xml()
    } else if id == 220 {
        define_xsl()
    } else if id == 221 {
        define_xcode_config()
    } else if id == 222 {
        define_xtend()
    } else {
        define_yaml()
    }
}

fn language_part_7(id: usize) -> (l: LanguageDef)
    requires
        224 <= id < 226,
    ensures
        l@ == language_view(id as int),
{
    reveal(language_view);
    if id == 224 {
        define_zig()
    } else {
        define_zsh()
    }
}

/// The definition of language `id` of the library.
pub fn language(id: usize) -> (l: LanguageDef)
    requires
        id < LANGUAGE_COUNT,
    ensures
        l@ == language_view(id as int),
{
    if id < 32 {
        language_part_0(id)
    } else if id < 64 {
        language_part_1(id)
    } else if id < 96 {
        language_part_2(id)
    } else if id < 128 {
        language_part_3(id)
    } else if id < 160 {
        language_part_4(id)
    } else if id < 192 {
        language_part_5(id)
    } else if id < 224 {
        language_part_6(id)
    } else {
        language_part_7(id)
    }
}

proof fn lemma_part_prefixes_0(id: int)
    requires
        0 <= id < 32,
    ensures
        prefixes_nonempty(language_view(id)),
{
    reveal(language_view);
}

proof fn lemma_part_prefixes_1(id: int)
    requires
        32 <= id < 64,
    ensures
        prefixes_nonempty(language_view(id)),
{
    reveal(language_view);
}

proof fn lemma_part_prefixes_2(id: int)
    requires
        64 <= id < 96,
    ensures
        prefixes_nonempty(language_view(id)),
{
    reveal(language_view);
}

proof fn lemma_part_prefixes_3(id: int)
    requires
        96 <= id < 128,
    ensures
        prefixes_nonempty(language_view(id)),
{
    reveal(language_view);
}

proof fn lemma_part_prefixes_4(id: int)
    requires
        128 <= id < 160,
    ensures
        prefixes_nonempty(language_view(id)),
{
    reveal(language_view);
}

proof fn lemma_part_prefixes_5(id: int)
    requires
        160 <= id < 192,
    ensures
        prefixes_nonempty(language_view(id)),
{
    reveal(language_view);
}

proof fn lemma_part_prefixes_6(id: int)
    requires
        192 <= id < 224,
    ensures
        prefixes_nonempty(language_view(id)),
{
    reveal(language_view);
}

proof fn lemma_part_prefixes_7(id: int)
    requires
        224 <= id < 226,
    ensures
        prefixes_nonempty(language_view(id)),
{
    reveal(language_view);
}

/// The languages of the library have non-empty documentation prefixes;
/// Markdown has none, and Markdown and Python are text languages.
pub proof fn lemma_registry_prefixes(id: int)
    requires
        0 <= id < LANGUAGE_COUNT,
    ensures
        prefixes_nonempty(language_view(id)),
        doc_rank(language_view(MARKDOWN as int)) == 0,
        language_view(MARKDOWN as int).structured_format == StructuredFormat::Text,
        language_view(PYTHON as int).structured_format == StructuredFormat::Text,
{
    reveal(language_view);
    if 0 <= id < 32 {
        lemma_part_prefixes_0(id);
    }
    if 32 <= id < 64 {
        lemma_part_prefixes_1(id);
    }
    if 64 <= id < 96 {
        lemma_part_prefixes_2(id);
    }
    if 96 <= id < 128 {
        lemma_part_prefixes_3(id);
    }
    if 128 <= id < 160 {
        lemma_part_prefixes_4(id);
    }
    if 160 <= id < 192 {
        lemma_part_prefixes_5(id);
    }
    if 192 <= id < 224 {
        lemma_part_prefixes_6(id);
    }
    if 224 <= id < 226 {
        lemma_part_prefixes_7(id);
    }
}

pub open spec fn extension_part_0() -> Seq<(&'static str, usize)> {
    seq![("resx", 0usize), ("abap", 1usize), ("abnf", 2usize), ("asn1", 3usize), ("asa", 4usize), ("asp", 4usize), ("asax", 5usize), ("ascx", 5usize), ("asmx", 5usize), ("aspx", 5usize), ("master", 5usize), ("sitemap", 5usize), ("webinfo", 5usize), ("as", 6usize), ("ada", 7usize), ("adb", 7usize), ("ads", 7usize), ("pad", 7usize), ("agda", 8usize), ("x", 9usize), ("als", 10usize), ("vm", 11usize), ("ino", 12usize), ("adoc", 13usize), ("asciidoc", 13usize), ("asm", 14usize), ("ahk", 15usize), ("in", 16usize), ("am", 17usize), ("bash", 18usize), ("bat", 19usize), ("btm", 19usize), ("cmd", 19usize), ("bean", 20usize), ("beancount", 20usize), ("brs", 21usize), ("c", 22usize), ("ec", 22usize), ("pgc", 22usize), ("h", 23usize)]
}

fn extension_entries_0() -> (r: Vec<(&'static str, usize)>)
    ensures
        r@ == extension_part_0(),
{
    vec![("resx", 0usize), ("abap", 1usize), ("abnf", 2usize), ("asn1", 3usize), ("asa", 4usize), ("asp", 4usize), ("asax", 5usize), ("ascx", 5usize), ("asmx", 5usize), ("aspx", 5usize), ("master", 5usize), ("sitemap", 5usize), ("webinfo", 5usize), ("as", 6usize), ("ada", 7usize), ("adb", 7usize), ("ads", 7usize), ("pad", 7usize), ("agda", 8usize), ("x", 9usize), ("als", 10usize), ("vm", 11usize), ("ino", 12usize), ("adoc", 13usize), ("asciidoc", 13usize), ("asm", 14usize), ("ahk", 15usize), ("in", 16usize), ("am", 17usize), ("bash", 18usize), ("bat", 19usize), ("btm", 19usize), ("cmd", 19usize), ("bean", 20usize), ("beancount", 20usize), ("brs", 21usize), ("c", 22usize), ("ec", 22usize), ("pgc", 22usize), ("h", 23usize)]
}

pub open spec fn extension_part_1() -> Seq<(&'static str, usize)> {
    seq![("csh", 24usize), ("cs", 25usize), ("csx", 25usize), ("cc", 26usize), ("cpp", 26usize), ("cxx", 26usize), ("c++", 26usize), ("pcc", 26usize), ("tpp", 26usize), ("hh", 27usize), ("hpp", 27usize), ("hxx", 27usize), ("inl", 27usize), ("ipp", 27usize), ("cmake", 28usize), ("cob", 29usize), ("cbl", 29usize), ("ccp", 29usize), ("cobol", 29usize), ("cpy", 29usize), ("css", 30usize), ("cabal", 31usize), ("cassius", 32usize), ("ceylon", 33usize), ("clj", 34usize), ("cljc", 35usize), ("cljs", 36usize), ("ql", 37usize), ("qll", 37usize), ("coffee", 38usize), ("cjsx", 38usize), ("cogent", 39usize), ("cfm", 40usize), ("cfc", 41usize), ("v", 42usize), ("cr", 43usize), ("d", 44usize), ("daml", 45usize), ("dart", 46usize), ("dts", 47usize)]
}

fn extension_entries_1() -> (r: Vec<(&'static str, usize)>)
    ensures
        r@ == extension_part_1(),
{
    vec![("csh", 24usize), ("cs", 25usize), ("csx", 25usize), ("cc", 26usize), ("cpp", 26usize), ("cxx", 26usize), ("c++", 26usize), ("pcc", 26usize), ("tpp", 26usize), ("hh", 27usize), ("hpp", 27usize), ("hxx", 27usize), ("inl", 27usize), ("ipp", 27usize), ("cmake", 28usize), ("cob", 29usize), ("cbl", 29usize), ("ccp", 29usize), ("cobol", 29usize), ("cpy", 29usize), ("css", 30usize), ("cabal", 31usize), ("cassius", 32usize), ("ceylon", 33usize), ("clj", 34usize), ("cljc", 35usize), ("cljs", 36usize), ("ql", 37usize), ("qll", 37usize), ("coffee", 38usize), ("cjsx", 38usize), ("cogent", 39usize), ("cfm", 40usize), ("cfc", 41usize), ("v", 42usize), ("cr", 43usize), ("d", 44usize), ("daml", 45usize), ("dart", 46usize), ("dts", 47usize)]
}

pub open spec fn extension_part_2() -> Seq<(&'static str, usize)> {
    seq![("dtsi", 47usize), ("dhall", 48usize), ("dockerfile", 49usize), ("dockerignore", 49usize), ("dm", 50usize), ("dme", 50usize), ("dust", 51usize), ("edn", 52usize), ("ex", 53usize), ("exs", 53usize), ("elm", 54usize), ("elv", 55usize), ("ede", 56usize), ("el", 57usize), ("emojic", 58usize), ("🍇", 58usize), ("erl", 59usize), ("hrl", 59usize), ("fs", 60usize), ("fsi", 60usize), ("fsx", 60usize), ("fsscript", 60usize), ("fst", 61usize), ("fen", 62usize), ("f", 63usize), ("for", 63usize), ("ftn", 63usize), ("f77", 63usize), ("pfo", 63usize), ("f03", 64usize), ("f08", 64usize), ("f90", 64usize), ("f95", 64usize), ("fish", 65usize), ("fbs", 66usize), ("4th", 67usize), ("forth", 67usize), ("fr", 67usize), ("frt", 67usize), ("fth", 67usize)]
}

fn extension_entries_2() -> (r: Vec<(&'static str, usize)>)
    ensures
        r@ == extension_part_2(),
{
    vec![("dtsi", 47usize), ("dhall", 48usize), ("dockerfile", 49usize), ("dockerignore", 49usize), ("dm", 50usize), ("dme", 50usize), ("dust", 51usize), ("edn", 52usize), ("ex", 53usize), ("exs", 53usize), ("elm", 54usize), ("elv", 55usize), ("ede", 56usize), ("el", 57usize), ("emojic", 58usize), ("🍇", 58usize), ("erl", 59usize), ("hrl", 59usize), ("fs", 60usize), ("fsi", 60usize), ("fsx", 60usize), ("fsscript", 60usize), ("fst", 61usize), ("fen", 62usize), ("f", 63usize), ("for", 63usize), ("ftn", 63usize), ("f77", 63usize), ("pfo", 63usize), ("f03", 64usize), ("f08", 64usize), ("f90", 64usize), ("f95", 64usize), ("fish", 65usize), ("fbs", 66usize), ("4th", 67usize), ("forth", 67usize), ("fr", 67usize), ("frt", 67usize), ("fth", 67usize)]
}

pub open spec fn extension_part_3() -> Seq<(&'static str, usize)> {
    seq![("f83", 67usize), ("fb", 67usize), ("fpm", 67usize), ("e4", 67usize), ("rx", 67usize), ("ft", 67usize), ("ftl", 68usize), ("ftlh", 68usize), ("ftlx", 68usize), ("fut", 69usize), ("gdb", 70usize), ("gd", 71usize), ("vert", 72usize), ("tesc", 72usize), ("tese", 72usize), ("geom", 72usize), ("frag", 72usize), ("comp", 72usize), ("glsl", 72usize), ("s", 73usize), ("feature", 74usize), ("gleam", 75usize), ("go", 76usize), ("gohtml", 77usize), ("gql", 78usize), ("graphql", 78usize), ("groovy", 79usize), ("grt", 79usize), ("gtpl", 79usize), ("gvy", 79usize), ("gw", 80usize), ("tf", 81usize), ("tfvars", 81usize), ("hex", 82usize), ("hlsl", 83usize), ("html", 84usize), ("htm", 84usize), ("hamlet", 85usize), ("hbs", 86usize), ("handlebars", 86usize)]
}

fn extension_entries_3() -> (r: Vec<(&'static str, usize)>)
    ensures
        r@ == extension_part_3(),
{
    vec![("f83", 67usize), ("fb", 67usize), ("fpm", 67usize), ("e4", 67usize), ("rx", 67usize), ("ft", 67usize), ("ftl", 68usize), ("ftlh", 68usize), ("ftlx", 68usize), ("fut", 69usize), ("gdb", 70usize), ("gd", 71usize), ("vert", 72usize), ("tesc", 72usize), ("tese", 72usize), ("geom", 72usize), ("frag", 72usize), ("comp", 72usize), ("glsl", 72usize), ("s", 73usize), ("feature", 74usize), ("gleam", 75usize), ("go", 76usize), ("gohtml", 77usize), ("gql", 78usize), ("graphql", 78usize), ("groovy", 79usize), ("grt", 79usize), ("gtpl", 79usize), ("gvy", 79usize), ("gw", 80usize), ("tf", 81usize), ("tfvars", 81usize), ("hex", 82usize), ("hlsl", 83usize), ("html", 84usize), ("htm", 84usize), ("hamlet", 85usize), ("hbs", 86usize), ("handlebars", 86usize)]
}

pub open spec fn extension_part_4() -> Seq<(&'static str, usize)> {
    seq![("y", 87usize), ("ly", 87usize), ("hs", 88usize), ("hx", 89usize), ("ha", 90usize), ("hc", 91usize), ("ini", 92usize), ("idr", 93usize), ("lidr", 93usize), ("ihex", 94usize), ("thy", 95usize), ("jai", 96usize), ("json", 97usize), ("jsx", 98usize), ("java", 99usize), ("js", 100usize), ("mjs", 100usize), ("jsonnet", 101usize), ("libsonnet", 101usize), ("jl", 102usize), ("julius", 103usize), ("ipynb", 104usize), ("k", 105usize), ("kak", 106usize), ("kt", 107usize), ("kts", 107usize), ("lds", 108usize), ("less", 109usize), ("ll", 110usize), ("lean", 111usize), ("hlean", 111usize), ("liquid", 112usize), ("lisp", 113usize), ("lsp", 113usize), ("ls", 114usize), ("lgt", 115usize), ("logtalk", 115usize), ("lua", 116usize), ("lucius", 117usize), ("csproj", 118usize)]
}

fn extension_entries_4() -> (r: Vec<(&'static str, usize)>)
    ensures
        r@ == extension_part_4(),
{
    vec![("y", 87usize), ("ly", 87usize), ("hs", 88usize), ("hx", 89usize), ("ha", 90usize), ("hc", 91usize), ("ini", 92usize), ("idr", 93usize), ("lidr", 93usize), ("ihex", 94usize), ("thy", 95usize), ("jai", 96usize), ("json", 97usize), ("jsx", 98usize), ("java", 99usize), ("js", 100usize), ("mjs", 100usize), ("jsonnet", 101usize), ("libsonnet", 101usize), ("jl", 102usize), ("julius", 103usize), ("ipynb", 104usize), ("k", 105usize), ("kak", 106usize), ("kt", 107usize), ("kts", 107usize), ("lds", 108usize), ("less", 109usize), ("ll", 110usize), ("lean", 111usize), ("hlean", 111usize), ("liquid", 112usize), ("lisp", 113usize), ("lsp", 113usize), ("ls", 114usize), ("lgt", 115usize), ("logtalk", 115usize), ("lua", 116usize), ("lucius", 117usize), ("csproj", 118usize)]
}

pub open spec fn extension_part_5() -> Seq<(&'static str, usize)> {
    seq![("vbproj", 118usize), ("fsproj", 118usize), ("props", 118usize), ("targets", 118usize), ("mad", 119usize), ("makefile", 120usize), ("mak", 120usize), ("mk", 120usize), ("md", 121usize), ("markdown", 121usize), ("mint", 123usize), ("def", 124usize), ("moon", 125usize), ("mustache", 126usize), ("nim", 127usize), ("nix", 128usize), ("nqp", 129usize), ("ml", 130usize), ("mli", 130usize), ("mll", 130usize), ("mly", 130usize), ("re", 130usize), ("rei", 130usize), ("m", 131usize), ("mm", 132usize), ("odin", 133usize), ("fea", 134usize), ("org", 135usize), ("oz", 136usize), ("php", 137usize), ("psl", 138usize), ("pan", 139usize), ("tpl", 139usize), ("pas", 140usize), ("pp", 140usize), ("pl", 141usize), ("pm", 141usize), ("pest", 142usize), ("text", 143usize), ("txt", 143usize)]
}

fn extension_entries_5() -> (r: Vec<(&'static str, usize)>)
    ensures
        r@ == extension_part_5(),
{
    vec![("vbproj", 118usize), ("fsproj", 118usize), ("props", 118usize), ("targets", 118usize), ("mad", 119usize), ("makefile", 120usize), ("mak", 120usize), ("mk", 120usize), ("md", 121usize), ("markdown", 121usize), ("mint", 123usize), ("def", 124usize), ("moon", 125usize), ("mustache", 126usize), ("nim", 127usize), ("nix", 128usize), ("nqp", 129usize), ("ml", 130usize), ("mli", 130usize), ("mll", 130usize), ("mly", 130usize), ("re", 130usize), ("rei", 130usize), ("m", 131usize), ("mm", 132usize), ("odin", 133usize), ("fea", 134usize), ("org", 135usize), ("oz", 136usize), ("php", 137usize), ("psl", 138usize), ("pan", 139usize), ("tpl", 139usize), ("pas", 140usize), ("pp", 140usize), ("pl", 141usize), ("pm", 141usize), ("pest", 142usize), ("text", 143usize), ("txt", 143usize)]
}

pub open spec fn extension_part_6() -> Seq<(&'static str, usize)> {
    seq![("polly", 144usize), ("pony", 145usize), ("pcss", 146usize), ("sss", 146usize), ("ps1", 147usize), ("psm1", 147usize), ("psd1", 147usize), ("ps1xml", 147usize), ("cdxml", 147usize), ("pssc", 147usize), ("psc1", 147usize), ("pde", 148usize), ("p", 149usize), ("pro", 149usize), ("proto", 150usize), ("pug", 151usize), ("purs", 152usize), ("py", 153usize), ("pyw", 153usize), ("q", 154usize), ("qcl", 155usize), ("qml", 156usize), ("r", 157usize), ("spec", 158usize), ("rkt", 159usize), ("rake", 160usize), ("pl6", 161usize), ("pm6", 161usize), ("cshtml", 162usize), ("rst", 163usize), ("rpy", 164usize), ("rb", 165usize), ("rhtml", 166usize), ("erb", 166usize), ("rs", 167usize), ("ron", 168usize), ("sql", 169usize), ("srt", 170usize), ("svg", 171usize), ("swg", 172usize)]
}

fn extension_entries_6() -> (r: Vec<(&'static str, usize)>)
    ensures
        r@ == extension_part_6(),
{
    vec![("polly", 144usize), ("pony", 145usize), ("pcss", 146usize), ("sss", 146usize), ("ps1", 147usize), ("psm1", 147usize), ("psd1", 147usize), ("ps1xml", 147usize), ("cdxml", 147usize), ("pssc", 147usize), ("psc1", 147usize), ("pde", 148usize), ("p", 149usize), ("pro", 149usize), ("proto", 150usize), ("pug", 151usize), ("purs", 152usize), ("py", 153usize), ("pyw", 153usize), ("q", 154usize), ("qcl", 155usize), ("qml", 156usize), ("r", 157usize), ("spec", 158usize), ("rkt", 159usize), ("rake", 160usize), ("pl6", 161usize), ("pm6", 161usize), ("cshtml", 162usize), ("rst", 163usize), ("rpy", 164usize), ("rb", 165usize), ("rhtml", 166usize), ("erb", 166usize), ("rs", 167usize), ("ron", 168usize), ("sql", 169usize), ("srt", 170usize), ("svg", 171usize), ("swg", 172usize)]
}

pub open spec fn extension_part_7() -> Seq<(&'static str, usize)> {
    seq![("i", 172usize), ("sass", 173usize), ("scss", 173usize), ("sc", 174usize), ("scala", 174usize), ("scm", 175usize), ("ss", 175usize), ("sh", 177usize), ("sol", 178usize), ("e", 179usize), ("ckt", 180usize), ("stan", 181usize), ("sml", 182usize), ("str", 183usize), ("styl", 184usize), ("svelte", 185usize), ("swift", 186usize), ("sv", 187usize), ("svh", 187usize), ("tcl", 188usize), ("toml", 189usize), ("tsx", 190usize), ("ttcn", 191usize), ("ttcn3", 191usize), ("ttcnpp", 191usize), ("tex", 192usize), ("sty", 192usize), ("tera", 193usize), ("thrift", 194usize), ("twig", 195usize), ("ts", 196usize), ("udn", 197usize), ("uplugin", 198usize), ("uproject", 199usize), ("uc", 200usize), ("uci", 200usize), ("upkg", 200usize), ("usf", 201usize), ("ush", 202usize), ("ur", 203usize)]
}

fn extension_entries_7() -> (r: Vec<(&'static str, usize)>)
    ensures
        r@ == extension_part_7(),
{
    vec![("i", 172usize), ("sass", 173usize), ("scss", 173usize), ("sc", 174usize), ("scala", 174usize), ("scm", 175usize), ("ss", 175usize), ("sh", 177usize), ("sol", 178usize), ("e", 179usize), ("ckt", 180usize), ("stan", 181usize), ("sml", 182usize), ("str", 183usize), ("styl", 184usize), ("svelte", 185usize), ("swift", 186usize), ("sv", 187usize), ("svh", 187usize), ("tcl", 188usize), ("toml", 189usize), ("tsx", 190usize), ("ttcn", 191usize), ("ttcn3", 191usize), ("ttcnpp", 191usize), ("tex", 192usize), ("sty", 192usize), ("tera", 193usize), ("thrift", 194usize), ("twig", 195usize), ("ts", 196usize), ("udn", 197usize), ("uplugin", 198usize), ("uproject", 199usize), ("uc", 200usize), ("uci", 200usize), ("upkg", 200usize), ("usf", 201usize), ("ush", 202usize), ("ur", 203usize)]
}

pub open spec fn extension_part_8() -> Seq<(&'static str, usize)> {
    seq![("urs", 203usize), ("urp", 204usize), ("frm", 205usize), ("bas", 205usize), ("cls", 205usize), ("vbs", 206usize), ("vhd", 207usize), ("vhdl", 207usize), ("vala", 208usize), ("vg", 209usize), ("vh", 209usize), ("irunargs", 210usize), ("xrunargs", 210usize), ("vim", 211usize), ("vb", 212usize), ("vcproj", 213usize), ("vcxproj", 213usize), ("sln", 214usize), ("vue", 215usize), ("wat", 216usize), ("wast", 216usize), ("nb", 217usize), ("wl", 217usize), ("xaml", 218usize), ("xml", 219usize), ("xsl", 220usize), ("xslt", 220usize), ("xcconfig", 221usize), ("xtend", 222usize), ("yaml", 223usize), ("yml", 223usize), ("zig", 224usize), ("zsh", 225usize)]
}

fn extension_entries_8() -> (r: Vec<(&'static str, usize)>)
    ensures
        r@ == extension_part_8(),
{
    vec![("urs", 203usize), ("urp", 204usize), ("frm", 205usize), ("bas", 205usize), ("cls", 205usize), ("vbs", 206usize), ("vhd", 207usize), ("vhdl", 207usize), ("vala", 208usize), ("vg", 209usize), ("vh", 209usize), ("irunargs", 210usize), ("xrunargs", 210usize), ("vim", 211usize), ("vb", 212usize), ("vcproj", 213usize), ("vcxproj", 213usize), ("sln", 214usize), ("vue", 215usize), ("wat", 216usize), ("wast", 216usize), ("nb", 217usize), ("wl", 217usize), ("xaml", 218usize), ("xml", 219usize), ("xsl", 220usize), ("xslt", 220usize), ("xcconfig", 221usize), ("xtend", 222usize), ("yaml", 223usize), ("yml", 223usize), ("zig", 224usize), ("zsh", 225usize)]
}

/// Lower-case file extensions and the language each selects.
pub open spec fn extension_table() -> Seq<(&'static str, usize)> {
    extension_part_0() + extension_part_1() + extension_part_2() + extension_part_3() + extension_part_4() + extension_part_5() + extension_part_6() + extension_part_7() + extension_part_8()
}

fn extension_entries() -> (r: Vec<(&'static str, usize)>)
    ensures
        r@ == extension_table(),
{
    let mut r = extension_entries_0();
    let mut part = extension_entries_1();
    r.append(&mut part);
    let mut part = extension_entries_2();
    r.append(&mut part);
    let mut part = extension_entries_3();
    r.append(&mut part);
    let mut part = extension_entries_4();
    r.append(&mut part);
    let mut part = extension_entries_5();
    r.append(&mut part);
    let mut part = extension_entries_6();
    r.append(&mut part);
    let mut part = extension_entries_7();
    r.append(&mut part);
    let mut part = extension_entries_8();
    r.append(&mut part);
    r
}

proof fn lemma_extension_in_range()
    ensures
        table_in_range(extension_table()),
{
    assert(table_in_range(extension_part_0()));
    assert(table_in_range(extension_part_1()));
    assert(table_in_range(extension_part_2()));
    assert(table_in_range(extension_part_3()));
    assert(table_in_range(extension_part_4()));
    assert(table_in_range(extension_part_5()));
    assert(table_in_range(extension_part_6()));
    assert(table_in_range(extension_part_7()));
    assert(table_in_range(extension_part_8()));
    lemma_in_range_concat(extension_part_0(), extension_part_1());
    lemma_in_range_concat(extension_part_0() + extension_part_1(), extension_part_2());
    lemma_in_range_concat(extension_part_0() + extension_part_1() + extension_part_2(), extension_part_3());
    lemma_in_range_concat(extension_part_0() + extension_part_1() + extension_part_2() + extension_part_3(), extension_part_4());
    lemma_in_range_concat(extension_part_0() + extension_part_1() + extension_part_2() + extension_part_3() + extension_part_4(), extension_part_5());
    lemma_in_range_concat(extension_part_0() + extension_part_1() + extension_part_2() + extension_part_3() + extension_part_4() + extension_part_5(), extension_part_6());
    lemma_in_range_concat(extension_part_0() + extension_part_1() + extension_part_2() + extension_part_3() + extension_part_4() + extension_part_5() + extension_part_6(), extension_part_7());
    lemma_in_range_concat(extension_part_0() + extension_part_1() + extension_part_2() + extension_part_3() + extension_part_4() + extension_part_5() + extension_part_6() + extension_part_7(), extension_part_8());
}

pub open spec fn filename_part_0() -> Seq<(&'static str, usize)> {
    seq![("cmakelists.txt", 28usize), ("dockerfile", 49usize), ("makefile", 120usize), ("meson.build", 122usize), ("meson_options.txt", 122usize), ("rakefile", 160usize), ("sconstruct", 176usize), ("sconscript", 176usize)]
}

fn filename_entries_0() -> (r: Vec<(&'static str, usize)>)
    ensures
        r@ == filename_part_0(),
{
    vec![("cmakelists.txt", 28usize), ("dockerfile", 49usize), ("makefile", 120usize), ("meson.build", 122usize), ("meson_options.txt", 122usize), ("rakefile", 160usize), ("sconstruct", 176usize), ("sconscript", 176usize)]
}

/// Lower-case file names and the language each selects.
pub open spec fn filename_table() -> Seq<(&'static str, usize)> {
    filename_part_0()
}

fn filename_entries() -> (r: Vec<(&'static str, usize)>)
    ensures
        r@ == filename_table(),
{
    let mut r = filename_entries_0();
    r
}

proof fn lemma_filename_in_range()
    ensures
        table_in_range(filename_table()),
{
    assert(table_in_range(filename_part_0()));
}

pub open spec fn shebang_part_0() -> Seq<(&'static str, usize)> {
    seq![("bash", 18usize), ("csh", 24usize), ("crystal", 43usize), ("elvish", 55usize), ("fish", 65usize), ("perl", 141usize), ("python", 153usize), ("python2", 153usize), ("python3", 153usize), ("ruby", 165usize), ("sh", 177usize), ("zsh", 225usize)]
}

fn shebang_entries_0() -> (r: Vec<(&'static str, usize)>)
    ensures
        r@ == shebang_part_0(),
{
    vec![("bash", 18usize), ("csh", 24usize), ("crystal", 43usize), ("elvish", 55usize), ("fish", 65usize), ("perl", 141usize), ("python", 153usize), ("python2", 153usize), ("python3", 153usize), ("ruby", 165usize), ("sh", 177usize), ("zsh", 225usize)]
}

/// Interpreter names in shebang lines and the language each selects.
pub open spec fn shebang_table() -> Seq<(&'static str, usize)> {
    shebang_part_0()
}

fn shebang_entries() -> (r: Vec<(&'static str, usize)>)
    ensures
        r@ == shebang_table(),
{
    let mut r = shebang_entries_0();
    r
}

proof fn lemma_shebang_in_range()
    ensures
        table_in_range(shebang_table()),
{
    assert(table_in_range(shebang_part_0()));
}

/// Display names of all languages, in byte order: the name of language `id` is
/// entry `id`.
pub open spec fn names_table() -> Seq<&'static str> {
    Seq::new(LANGUAGE_COUNT as nat, |id: int| language_view(id).name)
}

fn names_entries() -> (r: Vec<&'static str>)
    ensures
        r@ == names_table(),
{
    let mut r: Vec<&'static str> = Vec::new();
    let mut id: usize = 0;
    while id < LANGUAGE_COUNT
        invariant
            id <= LANGUAGE_COUNT,
            r@ == names_table().take(id as int),
        decreases LANGUAGE_COUNT - id,
    {
        let l = language(id);
        r.push(l.name);
        assert(names_table().take(id + 1) =~= names_table().take(id as int).push(l.name));
        id += 1;
    }
    assert(names_table().take(LANGUAGE_COUNT as int) =~= names_table());
    r
}

pub proof fn lemma_names_len()
    ensures
        names_table().len() == LANGUAGE_COUNT,
{
}

/// The display name of each language of the library is its entry in the
/// table of names.
pub proof fn lemma_language_names(id: int)
    requires
        0 <= id < LANGUAGE_COUNT,
    ensures
        language_view(id).name == names_table()[id],
{
}

/// The language that documentation blocks and notebook text cells are counted as.
pub const MARKDOWN: usize = 121;

/// The notebook language, counted from its cells.
pub const JUPYTER_NOTEBOOKS: usize = 104;

/// The language that notebook code cells are counted as.
pub const PYTHON: usize = 153;

/// The language of the first entry of `table` whose key is `key`.
pub open spec fn table_lookup(table: Seq<(&'static str, usize)>, key: Seq<char>) -> Option<usize>
    decreases table.len(),
{
    if table.len() == 0 {
        None
    } else if table[0].0@ == key {
        Some(table[0].1)
    } else {
        table_lookup(table.drop_first(), key)
    }
}

/// Every language a table names is a language of the library.
pub open spec fn table_in_range(table: Seq<(&'static str, usize)>) -> bool {
    forall|i: int| 0 <= i < table.len() ==> #[trigger] table[i].1 < LANGUAGE_COUNT
}

proof fn lemma_table_lookup_in_range(table: Seq<(&'static str, usize)>, key: Seq<char>)
    requires
        table_in_range(table),
    ensures
        table_lookup(table, key) matches Some(id) ==> id < LANGUAGE_COUNT,
    decreases table.len(),
{
    if table.len() > 0 && table[0].0@ != key {
        assert(table_in_range(table.drop_first())) by {
            assert forall|i: int| 0 <= i < table.drop_first().len() implies #[trigger] table.drop_first()[i].1 < LANGUAGE_COUNT by {
                assert(table.drop_first()[i] == table[i + 1]);
            }
        }
        lemma_table_lookup_in_range(table.drop_first(), key);
    }
}

/// Tables joined end to end name languages of the library when each does.
proof fn lemma_in_range_concat(a: Seq<(&'static str, usize)>, b: Seq<(&'static str, usize)>)
    requires
        table_in_range(a),
        table_in_range(b),
    ensures
        table_in_range(a + b),
{
    assert forall|i: int| 0 <= i < (a + b).len() implies #[trigger] (a + b)[i].1 < LANGUAGE_COUNT by {
        if i < a.len() {
            assert((a + b)[i] == a[i]);
        } else {
            assert((a + b)[i] == b[i - a.len()]);
        }
    }
}

proof fn lemma_tables_in_range()
    ensures
        table_in_range(extension_table()),
        table_in_range(filename_table()),
        table_in_range(shebang_table()),
{
    lemma_extension_in_range();
    lemma_filename_in_range();
    lemma_shebang_in_range();
}

/// The first language from `i` on whose display name, lower-cased, is `key`.
pub open spec fn names_lookup(names: Seq<&'static str>, key: Seq<char>, i: int) -> Option<usize>
    decreases names.len() - i,
{
    if 0 <= i < names.len() {
        if ascii_lower(names[i]@) == key {
            Some(i as usize)
        } else {
            names_lookup(names, key, i + 1)
        }
    } else {
        None
    }
}

proof fn lemma_names_lookup_range(names: Seq<&'static str>, key: Seq<char>, i: int)
    requires
        0 <= i,
        names.len() <= usize::MAX,
    ensures
        names_lookup(names, key, i) matches Some(j) ==> i <= j < names.len() && ascii_lower(names[j as int]@) == key,
    decreases names.len() - i,
{
    if 0 <= i < names.len() && ascii_lower(names[i]@) != key {
        lemma_names_lookup_range(names, key, i + 1);
    }
}

/// A name listed at `id` is found from any `i <= id`, at or before `id`.
pub proof fn lemma_names_lookup_finds(names: Seq<&'static str>, i: int, id: int)
    requires
        0 <= i <= id < names.len(),
        names.len() <= usize::MAX,
    ensures
        names_lookup(names, ascii_lower(names[id]@), i) matches Some(j) && i <= j <= id
            && ascii_lower(names[j as int]@) == ascii_lower(names[id]@),
    decreases id - i,
{
    if ascii_lower(names[i]@) != ascii_lower(names[id]@) {
        lemma_names_lookup_finds(names, i + 1, id);
    }
}

fn lookup(table: &Vec<(&'static str, usize)>, key: &Vec<char>) -> (r: Option<usize>)
    ensures
        r == table_lookup(table@, key@),
{
    let mut i: usize = 0;
    assert(table@.skip(0) =~= table@);
    while i < table.len()
        invariant
            i <= table.len(),
            table_lookup(table@, key@) == table_lookup(table@.skip(i as int), key@),
        decreases table.len() - i,
    {
        let entry_key = chars_of(table[i].0);
        assert(table@.skip(i as int)[0] == table@[i as int]);
        if chars_eq(&entry_key, key) {
            return Some(table[i].1);
        }
        assert(table@.skip(i as int).drop_first() =~= table@.skip(i + 1));
        i += 1;
    }
    None
}

/// The language selected by a lower-case file extension.
pub open spec fn extension_language(ext: Seq<char>) -> Option<usize> {
    table_lookup(extension_table(), ext)
}

/// The language selected by a lower-case file name.
pub open spec fn filename_language(name: Seq<char>) -> Option<usize> {
    table_lookup(filename_table(), name)
}

/// The language with display name `name`, compared without regard to ASCII case.
pub open spec fn name_language(name: Seq<char>) -> Option<usize> {
    names_lookup(names_table(), ascii_lower(name), 0)
}

/// The language named by a shebang line: `#!`, then the interpreter path whose
/// last segment selects the language, or after `env` the next word.
pub open spec fn shebang_language(line: Seq<char>) -> Option<usize> {
    if line.len() >= 2 && line[0] == '#' && line[1] == '!' {
        let words = first_two_words(line.skip(2));
        match words.0 {
            None => None,
            Some(first) => {
                let base = last_segment(first);
                if base == seq!['e', 'n', 'v'] {
                    match words.1 {
                        None => None,
                        Some(interpreter) => table_lookup(shebang_table(), interpreter),
                    }
                } else {
                    table_lookup(shebang_table(), base)
                }
            },
        }
    } else {
        None
    }
}

/// The definition of an optional language of the library.
pub open spec fn language_of(id: Option<usize>) -> Option<LanguageView> {
    match id {
        Some(i) => Some(language_view(i as int)),
        None => None,
    }
}

/// The value of an optional definition.
pub open spec fn def_view(d: Option<LanguageDef>) -> Option<LanguageView> {
    match d {
        Some(l) => Some(l@),
        None => None,
    }
}

/// The language selected by a lower-case file extension.
pub fn extension_id(ext: &Vec<char>) -> (r: Option<usize>)
    ensures
        r == extension_language(ext@),
        r matches Some(id) ==> id < LANGUAGE_COUNT,
{
    proof {
        lemma_tables_in_range();
        lemma_table_lookup_in_range(extension_table(), ext@);
    }
    lookup(&extension_entries(), ext)
}

/// The language selected by a lower-case file name.
pub fn filename_id(name: &Vec<char>) -> (r: Option<usize>)
    ensures
        r == filename_language(name@),
        r matches Some(id) ==> id < LANGUAGE_COUNT,
{
    proof {
        lemma_tables_in_range();
        lemma_table_lookup_in_range(filename_table(), name@);
    }
    lookup(&filename_entries(), name)
}

/// The language with display name `name`, without regard to ASCII case.
pub fn name_id(name: &Vec<char>) -> (r: Option<usize>)
    ensures
        r == name_language(name@),
        r matches Some(id) ==> id < LANGUAGE_COUNT,
{
    let lower = to_ascii_lower(name);
    let names = names_entries();
    proof {
        lemma_names_len();
        lemma_names_lookup_range(names@, lower@, 0);
    }
    let mut i: usize = 0;
    while i < names.len()
        invariant
            i <= names.len(),
            names@ == names_table(),
            names@.len() == LANGUAGE_COUNT,
            lower@ == ascii_lower(name@),
            names_lookup(names@, lower@, 0) == names_lookup(names@, lower@, i as int),
        decreases names.len() - i,
    {
        let name_chars = chars_of(names[i]);
        let entry = to_ascii_lower(&name_chars);
        if chars_eq(&entry, &lower) {
            assert(ascii_lower(names@[i as int]@) == lower@);
            return Some(i);
        }
        i += 1;
    }
    None
}

/// The language named by a shebang line.
pub fn shebang_id(line: &Vec<char>) -> (r: Option<usize>)
    ensures
        r == shebang_language(line@),
        r matches Some(id) ==> id < LANGUAGE_COUNT,
{
    proof {
        lemma_tables_in_range();
    }
    if line.len() < 2 || line[0] != '#' || line[1] != '!' {
        return None;
    }
    let mut rest: Vec<char> = Vec::new();
    let mut i: usize = 2;
    while i < line.len()
        invariant
            2 <= i <= line.len(),
            rest@ =~= line@.subrange(2, i as int),
        decreases line.len() - i,
    {
        rest.push(line[i]);
        i += 1;
    }
    assert(rest@ =~= line@.skip(2));
    let (first, second) = first_two_words_of(&rest);
    match first {
        None => None,
        Some(first) => {
            let base = last_segment_of(&first);
            let env = vec!['e', 'n', 'v'];
            assert(env@ =~= seq!['e', 'n', 'v']);
            if chars_eq(&base, &env) {
                match second {
                    None => None,
                    Some(interpreter) => {
                        proof {
                            lemma_table_lookup_in_range(shebang_table(), interpreter@);
                        }
                        lookup(&shebang_entries(), &interpreter)
                    },
                }
            } else {
                proof {
                    lemma_table_lookup_in_range(shebang_table(), base@);
                }
                lookup(&shebang_entries(), &base)
            }
        },
    }
}

/// The definition of an optional language of the library.
pub fn language_opt(id: Option<usize>) -> (r: Option<LanguageDef>)
    requires
        id matches Some(i) ==> i < LANGUAGE_COUNT,
    ensures
        def_view(r) == language_of(id),
{
    match id {
        Some(i) => Some(language(i)),
        None => None,
    }
}

impl LanguageDef {
    /// The language selected by a file extension (already in lower case).
    pub fn from_extension(ext: &str) -> (r: Option<LanguageDef>)
        ensures
            def_view(r) == language_of(extension_language(ext@)),
    {
        language_opt(extension_id(&chars_of(ext)))
    }

    /// The language selected by a file name (already in lower case).
    pub fn from_filename(name: &str) -> (r: Option<LanguageDef>)
        ensures
            def_view(r) == language_of(filename_language(name@)),
    {
        language_opt(filename_id(&chars_of(name)))
    }

    /// Detect a language from a shebang line (e.g. `#!/usr/bin/env ruby`).
    pub fn from_shebang(first_line: &str) -> (r: Option<LanguageDef>)
        ensures
            def_view(r) == language_of(shebang_language(first_line@)),
    {
        language_opt(shebang_id(&chars_of(first_line)))
    }

    /// Display names of all languages, in byte order.
    pub fn all_names() -> (r: Vec<&'static str>)
        ensures
            r@ == names_table(),
    {
        names_entries()
    }

    /// Look up a language by its display name, without regard to ASCII case.
    pub fn from_name(name: &str) -> (r: Option<LanguageDef>)
        ensures
            def_view(r) == language_of(name_language(name@)),
    {
        language_opt(name_id(&chars_of(name)))
    }
}

} // verus!
