//! The structural shape that a document must have to count as an OpenAPI 3.0 document.

use vstd::prelude::*;
use vstd::string::*;
use crate::document::{object_at, reading_of, text_at, Reading};

verus! {

/// A member that every OpenAPI 3.0 document must have, named where a document lacks
/// it or holds a value of another type in its place.
#[derive(Clone, Copy, Debug, PartialEq, Eq, Structural)]
pub enum SchemaGap {
    /// No string at `/openapi`.
    Openapi,
    /// No object at `/info`.
    Info,
    /// No string at `/info/title`.
    InfoTitle,
    /// No string at `/info/version`.
    InfoVersion,
    /// No object at `/paths`.
    Paths,
}

impl SchemaGap {
    /// The diagnostic for this gap.
    pub open spec fn text(self) -> Seq<char> {
        match self {
            SchemaGap::Openapi => "no string at `/openapi`"@,
            SchemaGap::Info => "no object at `/info`"@,
            SchemaGap::InfoTitle => "no string at `/info/title`"@,
            SchemaGap::InfoVersion => "no string at `/info/version`"@,
            SchemaGap::Paths => "no object at `/paths`"@,
        }
    }

    /// The diagnostic for this gap, which is never empty.
    pub fn describe(self) -> (s: String)
        ensures
            s@ == self.text(),
            s@.len() > 0,
    {
        proof {
            lemma_gap_text_not_empty(self);
        }
        match self {
            SchemaGap::Openapi => String::from_str("no string at `/openapi`"),
            SchemaGap::Info => String::from_str("no object at `/info`"),
            SchemaGap::InfoTitle => String::from_str("no string at `/info/title`"),
            SchemaGap::InfoVersion => String::from_str("no string at `/info/version`"),
            SchemaGap::Paths => String::from_str("no object at `/paths`"),
        }
    }
}

/// The diagnostic of a gap is never empty.
pub proof fn lemma_gap_text_not_empty(gap: SchemaGap)
    ensures
        gap.text().len() > 0,
{
    reveal_strlit("no string at `/openapi`");
    reveal_strlit("no object at `/info`");
    reveal_strlit("no string at `/info/title`");
    reveal_strlit("no string at `/info/version`");
    reveal_strlit("no object at `/paths`");
}

/// The `info` object of a document, as far as it is required.
#[derive(Debug, PartialEq, Eq)]
pub struct Info {
    pub title: String,
    pub version: String,
}

/// A document that has the shape of an OpenAPI 3.0 document: the members that the
/// shape requires, read out, and the whole document for everything else.
#[derive(Debug, PartialEq, Eq)]
pub struct ParsedSpec {
    pub openapi: String,
    pub info: Info,
    pub document: serde_json::Value,
}

/// A parsed document as contracts speak of it.
pub ghost struct SpecView {
    pub openapi: Seq<char>,
    pub title: Seq<char>,
    pub version: Seq<char>,
    pub reading: Reading,
}

impl View for ParsedSpec {
    type V = SpecView;

    open spec fn view(&self) -> SpecView {
        SpecView {
            openapi: self.openapi@,
            title: self.info.title@,
            version: self.info.version@,
            reading: reading_of(self.document),
        }
    }
}

/// The first required member that a document lacks, in the order `openapi`, `info`,
/// `info.title`, `info.version`, `paths`; `None` where the document has the shape.
pub open spec fn first_gap(r: Reading) -> Option<SchemaGap> {
    if !r.texts.contains_key("/openapi"@) {
        Some(SchemaGap::Openapi)
    } else if !r.objects.contains("/info"@) {
        Some(SchemaGap::Info)
    } else if !r.texts.contains_key("/info/title"@) {
        Some(SchemaGap::InfoTitle)
    } else if !r.texts.contains_key("/info/version"@) {
        Some(SchemaGap::InfoVersion)
    } else if !r.objects.contains("/paths"@) {
        Some(SchemaGap::Paths)
    } else {
        None
    }
}

/// What is read out of a document that has the shape.
pub open spec fn spec_of(r: Reading) -> SpecView {
    SpecView {
        openapi: r.texts["/openapi"@],
        title: r.texts["/info/title"@],
        version: r.texts["/info/version"@],
        reading: r,
    }
}

/// Holds a document against the shape: the parsed document where it has every
/// required member, else the first member that it lacks.
pub fn match_schema(document: serde_json::Value) -> (r: Result<ParsedSpec, SchemaGap>)
    ensures
        match first_gap(reading_of(document)) {
            Some(gap) => r == Err::<ParsedSpec, SchemaGap>(gap),
            None => r matches Ok(spec) && spec@ == spec_of(reading_of(document)) && spec.document
                == document,
        },
{
    let openapi = match text_at(&document, "/openapi") {
        Some(text) => text,
        None => {
            return Err(SchemaGap::Openapi);
        },
    };
    if !object_at(&document, "/info") {
        return Err(SchemaGap::Info);
    }
    let title = match text_at(&document, "/info/title") {
        Some(text) => text,
        None => {
            return Err(SchemaGap::InfoTitle);
        },
    };
    let version = match text_at(&document, "/info/version") {
        Some(text) => text,
        None => {
            return Err(SchemaGap::InfoVersion);
        },
    };
    if !object_at(&document, "/paths") {
        return Err(SchemaGap::Paths);
    }
    Ok(ParsedSpec { openapi, info: Info { title, version }, document })
}

} // verus!
