//! Package identities: origin, name and optional version and release, where
//! an empty string means "absent".

use vstd::prelude::*;

use crate::projection::{fields_view, push_text, Field, FieldView};

verus! {

/// A package identity as carried on the wire. An empty `version` or
/// `release` means the part is absent.
#[derive(Clone, Debug, PartialEq, Eq)]
pub struct OriginPackageIdent {
    pub origin: String,
    pub name: String,
    pub version: String,
    pub release: String,
}

/// A package identity with absent parts as `None`.
#[derive(Clone, Debug, PartialEq, Eq)]
pub struct PackageIdent {
    pub origin: String,
    pub name: String,
    pub version: Option<String>,
    pub release: Option<String>,
}

/// A part that may be absent, as plain characters.
pub open spec fn opt_view(s: Option<String>) -> Option<Seq<char>> {
    match s {
        Some(v) => Some(v@),
        None => None,
    }
}

/// The optional reading of a wire part: empty is absent.
pub open spec fn present(s: Seq<char>) -> Option<Seq<char>> {
    if s.len() == 0 {
        None
    } else {
        Some(s)
    }
}

/// The canonical display: `origin/name`, `origin/name/version`, or
/// `origin/name/version/release`. A release without a version is not shown.
pub open spec fn display_of(
    origin: Seq<char>,
    name: Seq<char>,
    version: Seq<char>,
    release: Seq<char>,
) -> Seq<char> {
    if version.len() > 0 && release.len() > 0 {
        origin + seq!['/'] + name + seq!['/'] + version + seq!['/'] + release
    } else if version.len() > 0 {
        origin + seq!['/'] + name + seq!['/'] + version
    } else {
        origin + seq!['/'] + name
    }
}

fn optional_part(s: &String) -> (r: Option<&str>)
    ensures
        match r {
            Some(v) => s@.len() > 0 && v@ == s@,
            None => s@.len() == 0,
        },
{
    let v = s.as_str();
    if v.is_empty() {
        None
    } else {
        Some(v)
    }
}

fn optional_owned(s: &String) -> (r: Option<String>)
    ensures
        opt_view(r) == present(s@),
{
    if s.as_str().is_empty() {
        None
    } else {
        Some(s.clone())
    }
}

impl OriginPackageIdent {
    pub fn origin(&self) -> (r: &str)
        ensures
            r@ == self.origin@,
    {
        self.origin.as_str()
    }

    pub fn name(&self) -> (r: &str)
        ensures
            r@ == self.name@,
    {
        self.name.as_str()
    }

    /// The version, or `None` where it is empty.
    pub fn version(&self) -> (r: Option<&str>)
        ensures
            match r {
                Some(v) => self.version@.len() > 0 && v@ == self.version@,
                None => self.version@.len() == 0,
            },
    {
        optional_part(&self.version)
    }

    /// The release, or `None` where it is empty.
    pub fn release(&self) -> (r: Option<&str>)
        ensures
            match r {
                Some(v) => self.release@.len() > 0 && v@ == self.release@,
                None => self.release@.len() == 0,
            },
    {
        optional_part(&self.release)
    }

    /// Whether the identity is representable: no release without a version.
    pub fn is_well_formed(&self) -> (r: bool)
        ensures
            r == (self.release@.len() > 0 ==> self.version@.len() > 0),
    {
        self.release.as_str().is_empty() || !self.version.as_str().is_empty()
    }

    /// The canonical display form.
    pub fn to_display_string(&self) -> (r: String)
        ensures
            r@ == display_of(self.origin@, self.name@, self.version@, self.release@),
    {
        let has_version = !self.version.as_str().is_empty();
        let has_release = !self.release.as_str().is_empty();
        let mut r = self.origin.clone();
        proof {
            reveal_strlit("/");
        }
        r.append("/");
        r.append(self.name.as_str());
        if has_version {
            r.append("/");
            r.append(self.version.as_str());
            if has_release {
                r.append("/");
                r.append(self.release.as_str());
            }
        }
        r
    }

    /// The identity with absent parts as `None`.
    pub fn to_package_ident(&self) -> (r: PackageIdent)
        ensures
            r.origin@ == self.origin@,
            r.name@ == self.name@,
            opt_view(r.version) == present(self.version@),
            opt_view(r.release) == present(self.release@),
    {
        PackageIdent {
            origin: self.origin.clone(),
            name: self.name.clone(),
            version: optional_owned(&self.version),
            release: optional_owned(&self.release),
        }
    }

    /// The API projection: origin and name, then version and release only
    /// where present.
    pub open spec fn spec_fields(&self) -> Seq<(Seq<char>, FieldView)> {
        let base = seq![
            ("origin"@, FieldView::Text(self.origin@)),
            ("name"@, FieldView::Text(self.name@)),
        ];
        let with_version = if self.version@.len() > 0 {
            base.push(("version"@, FieldView::Text(self.version@)))
        } else {
            base
        };
        if self.release@.len() > 0 {
            with_version.push(("release"@, FieldView::Text(self.release@)))
        } else {
            with_version
        }
    }

    pub fn fields(&self) -> (r: Vec<Field>)
        ensures
            fields_view(r@) == self.spec_fields(),
    {
        let mut r: Vec<Field> = Vec::new();
        assert(fields_view(r@) =~= seq![]);
        push_text(&mut r, "origin", &self.origin);
        push_text(&mut r, "name", &self.name);
        if !self.version.as_str().is_empty() {
            push_text(&mut r, "version", &self.version);
        }
        if !self.release.as_str().is_empty() {
            push_text(&mut r, "release", &self.release);
        }
        assert(fields_view(r@) =~= self.spec_fields());
        r
    }
}

} // verus!
