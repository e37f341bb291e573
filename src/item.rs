//! A rename candidate: one file and the name proposed for it.
use vstd::prelude::*;
use crate::pattern::{Pattern, regex_replace_all};

verus! {

/// The final component of the path `p`, if it has one.
pub uninterp spec fn final_component(p: Seq<char>) -> Option<Seq<char>>;

/// The path `p` with its final component replaced by `name`.
pub uninterp spec fn path_with_file_name(p: Seq<char>, name: Seq<char>) -> Seq<char>;

/// Relies on std::path::Path::file_name: the final component of a path, or
/// nothing where the path ends in `..` or is a root.
#[verifier::external_body]
fn file_name(p: &str) -> (r: Option<String>)
    ensures
        r is Some <==> final_component(p@) is Some,
        r matches Some(n) ==> final_component(p@) == Some(n@),
{
    std::path::Path::new(p).file_name().map(|n| n.to_string_lossy().to_string())
}

/// Relies on std::path::Path::with_file_name: the same directory, with `name`
/// as the final component.
#[verifier::external_body]
fn with_file_name(p: &str, name: &str) -> (r: String)
    ensures
        r@ == path_with_file_name(p@, name@),
{
    std::path::Path::new(p).with_file_name(name).to_string_lossy().to_string()
}

/// The two columns in which candidates are shown.
#[derive(Clone, Copy, Debug, PartialEq, Eq, Structural, Hash)]
pub enum RenameColumn {
    Original,
    Renamed,
}

/// A filesystem move: the file at `from` is to be found at `to` afterwards.
#[derive(Clone, Debug)]
pub struct Move {
    pub from: String,
    pub to: String,
}

/// The mathematical value of a `RenameItem`.
pub ghost struct RenameItemView {
    pub original: Seq<char>,
    pub renamed: Seq<char>,
    pub location: Seq<char>,
}

/// One candidate file. `original` is the final component of `location`;
/// `renamed` is only changed by applying a pattern to `original`.
#[derive(Clone, Debug)]
pub struct RenameItem {
    original: String,
    renamed: String,
    location: String,
}

impl View for RenameItem {
    type V = RenameItemView;

    closed spec fn view(&self) -> RenameItemView {
        RenameItemView {
            original: self.original@,
            renamed: self.renamed@,
            location: self.location@,
        }
    }
}

impl RenameItem {
    /// A candidate for the file at `location`, whose proposed name starts out
    /// as its current name. `None` where the path has no final component.
    pub fn new(location: String) -> (r: Option<RenameItem>)
        ensures
            r is Some <==> final_component(location@) is Some,
            r matches Some(it) ==> {
                &&& final_component(location@) == Some(it@.original)
                &&& it@.renamed == it@.original
                &&& it@.location == location@
            },
    {
        match file_name(location.as_str()) {
            Some(name) => {
                let renamed = name.clone();
                Some(RenameItem { original: name, renamed, location })
            },
            None => None,
        }
    }

    /// The file's current name.
    pub fn original(&self) -> (r: &String)
        ensures
            r@ == self@.original,
    {
        &self.original
    }

    /// The proposed new name.
    pub fn renamed(&self) -> (r: &String)
        ensures
            r@ == self@.renamed,
    {
        &self.renamed
    }

    /// The file's full path.
    pub fn location(&self) -> (r: &String)
        ensures
            r@ == self@.location,
    {
        &self.location
    }

    /// Recomputes the proposed name by replacing every match of `find_pat`
    /// in the current name by `replace_pat`.
    pub fn set_pattern(&mut self, find_pat: &Pattern, replace_pat: &str)
        ensures
            final(self)@.renamed == regex_replace_all(find_pat@, old(self)@.original, replace_pat@),
            find_pat@.len() == 0 && replace_pat@.len() == 0 ==> final(self)@.renamed == old(self)@.original,
            final(self)@.original == old(self)@.original,
            final(self)@.location == old(self)@.location,
    {
        self.renamed = find_pat.replace_all(self.original.as_str(), replace_pat);
    }

    /// The move that carries out this rename: the file stays in its directory
    /// and takes the proposed name.
    pub fn rename(&self) -> (r: Move)
        ensures
            r.from@ == self@.location,
            r.to@ == path_with_file_name(self@.location, self@.renamed),
    {
        Move {
            from: self.location.clone(),
            to: with_file_name(self.location.as_str(), self.renamed.as_str()),
        }
    }

    /// The text shown for this candidate in `column`.
    pub fn to_column(&self, column: RenameColumn) -> (r: String)
        ensures
            column == RenameColumn::Original ==> r@ == self@.original,
            column == RenameColumn::Renamed ==> r@ == self@.renamed,
    {
        match column {
            RenameColumn::Original => self.original.clone(),
            RenameColumn::Renamed => self.renamed.clone(),
        }
    }
}

} // verus!
