//! Fully qualified identifiers of resource types: group, version and kind.

use crate::text::{
    first_index, lemma_first_index, lemma_split_at_first, split_at_first, split_first,
};
use vstd::prelude::*;

verus! {

/// Why a text is no identifier of the form `group/version.kind`.
#[derive(Clone, Copy, Debug, PartialEq, Eq, Structural)]
pub enum FormatError {
    /// The text holds no `/`.
    MissingVersionAndKind,
    /// The text holds a `/`, and no `.` stands after the first one.
    MissingKind,
}

impl FormatError {
    /// The words that name this error.
    pub open spec fn spec_message(self) -> Seq<char> {
        match self {
            FormatError::MissingVersionAndKind => "missing version and kind"@,
            FormatError::MissingKind => "missing kind"@,
        }
    }

    /// The words that name this error.
    pub fn message(&self) -> (r: &'static str)
        ensures
            r@ == self.spec_message(),
    {
        match self {
            FormatError::MissingVersionAndKind => "missing version and kind",
            FormatError::MissingKind => "missing kind",
        }
    }

    /// The words that name this error, as an owned string.
    pub fn to_string(&self) -> (r: String)
        ensures
            r@ == self.spec_message(),
    {
        self.message().to_owned()
    }
}

/// GroupVersionKind represents a fully qualified identifier for a resource type.
///
/// It is, as the name suggests, composed of three pieces of information:
/// - Group is a namespace
/// - Version is an API version
/// - Kind is the actual type marker
#[derive(Clone, Debug)]
pub struct GroupVersionKind {
    pub group: String,
    pub version: String,
    pub kind: String,
}

/// The three parts of a `GroupVersionKind` as texts.
pub struct GroupVersionKindView {
    pub group: Seq<char>,
    pub version: Seq<char>,
    pub kind: Seq<char>,
}

impl DeepView for GroupVersionKind {
    type V = GroupVersionKindView;

    open spec fn deep_view(&self) -> GroupVersionKindView {
        GroupVersionKindView { group: self.group@, version: self.version@, kind: self.kind@ }
    }
}

impl View for GroupVersionKind {
    type V = GroupVersionKindView;

    open spec fn view(&self) -> GroupVersionKindView {
        self.deep_view()
    }
}

impl GroupVersionKindView {
    /// The identifier written out: the group, a `/`, the version, a `.`, the kind.
    pub open spec fn joined(self) -> Seq<char> {
        self.group + seq!['/'] + self.version + seq!['.'] + self.kind
    }
}

/// What a text stands for as an identifier. The group is what stands before
/// the first `/`; of the rest, the version is what stands before the first
/// `.` and the kind all that follows it, dots included.
pub open spec fn parse_identifier(s: Seq<char>) -> Result<GroupVersionKindView, FormatError> {
    match split_at_first(s, '/') {
        None => Err(FormatError::MissingVersionAndKind),
        Some((group, rest)) => match split_at_first(rest, '.') {
            None => Err(FormatError::MissingKind),
            Some((version, kind)) => Ok(GroupVersionKindView { group, version, kind }),
        },
    }
}

impl GroupVersionKind {
    /// Create a new GroupVersionKind from each component.
    ///
    /// This does not check the formatting of each part.
    pub fn new(group: &str, version: &str, kind: &str) -> (r: GroupVersionKind)
        ensures
            r@ == (GroupVersionKindView { group: group@, version: version@, kind: kind@ }),
    {
        GroupVersionKind {
            group: group.to_owned(),
            version: version.to_owned(),
            kind: kind.to_owned(),
        }
    }

    /// Parse a string into a GroupVersionKind.
    pub fn from_str(gvp: &str) -> (r: Result<GroupVersionKind, FormatError>)
        ensures
            match r {
                Ok(id) => parse_identifier(gvp@) == Ok::<GroupVersionKindView, FormatError>(id@),
                Err(e) => parse_identifier(gvp@) == Err::<GroupVersionKindView, FormatError>(e),
            },
    {
        match split_first(gvp, '/') {
            None => Err(FormatError::MissingVersionAndKind),
            Some((group, rest)) => match split_first(rest.as_str(), '.') {
                None => Err(FormatError::MissingKind),
                Some((version, kind)) => Ok(GroupVersionKind { group, version, kind }),
            },
        }
    }
}

/// Which texts are identifiers: those with a `/` and, after the first `/`, a
/// `.`. A text without `/` lacks version and kind; one with a `/` and no `.`
/// after the first `/` lacks the kind.
pub proof fn lemma_parse_outcomes(s: Seq<char>)
    ensures
        parse_identifier(s) == Err::<GroupVersionKindView, FormatError>(
            FormatError::MissingVersionAndKind,
        ) <==> !s.contains('/'),
        parse_identifier(s) == Err::<GroupVersionKindView, FormatError>(FormatError::MissingKind)
            <==> s.contains('/') && !s.skip(first_index(s, '/') + 1).contains('.'),
        parse_identifier(s) is Ok <==> s.contains('/') && s.skip(first_index(s, '/') + 1).contains(
            '.',
        ),
{
    lemma_first_index(s, '/');
    lemma_first_index(s.skip(first_index(s, '/') + 1), '.');
}

/// Writing an identifier out and parsing it gives the identifier back,
/// provided that the group holds no `/` and the version no `.`. The kind may
/// hold anything.
pub proof fn lemma_parse_joined(id: GroupVersionKindView)
    requires
        !id.group.contains('/'),
        !id.version.contains('.'),
    ensures
        parse_identifier(id.joined()) == Ok::<GroupVersionKindView, FormatError>(id),
{
    let rest = id.version + seq!['.'] + id.kind;
    assert(id.joined() =~= id.group + seq!['/'] + rest);
    lemma_split_at_first(id.joined(), '/', id.group, rest);
    lemma_split_at_first(rest, '.', id.version, id.kind);
}

/// A parsed identifier, written out, is the text that was parsed; its group
/// holds no `/` and its version no `.`.
pub proof fn lemma_joined_parse(s: Seq<char>)
    requires
        parse_identifier(s) is Ok,
    ensures
        parse_identifier(s)->Ok_0.joined() == s,
        !parse_identifier(s)->Ok_0.group.contains('/'),
        !parse_identifier(s)->Ok_0.version.contains('.'),
{
    let id = parse_identifier(s)->Ok_0;
    let rest = split_at_first(s, '/')->Some_0.1;
    lemma_split_at_first(s, '/', id.group, rest);
    lemma_split_at_first(rest, '.', id.version, id.kind);
    assert(id.joined() =~= id.group + seq!['/'] + (id.version + seq!['.'] + id.kind));
}

} // verus!
