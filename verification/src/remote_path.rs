//! Paths of objects on a remote storage.
//!
//! A path is text, read the way Unix paths are read: the pieces between slashes are
//! its components, empty pieces and single dots count for nothing (but for a dot at
//! the very beginning), and a leading slash makes the path absolute.

use vstd::prelude::*;

use std::cmp::Ordering;

use camino::Utf8Path;

use crate::path_order::{law_paths_are_ordered, path_precedes};
use crate::text::{concat2, concat3, in_quotes, is_unescaped, join, owned};

verus! {

// ---------------------------------------------------------------------------
// How paths are read
// ---------------------------------------------------------------------------

/// The component that stands for the root directory.
pub open spec fn root_component() -> Seq<char> {
    seq!['/']
}

/// The component that stands for the current directory.
pub open spec fn dot_component() -> Seq<char> {
    seq!['.']
}

/// The component that stands for the parent directory.
pub open spec fn parent_component() -> Seq<char> {
    seq!['.', '.']
}

/// Whether `path` starts at the root directory.
pub open spec fn is_absolute(path: Seq<char>) -> bool {
    path.len() > 0 && path[0] == '/'
}

/// Whether a piece between two slashes names something.
pub open spec fn is_named(piece: Seq<char>) -> bool {
    piece.len() > 0 && piece != dot_component()
}

/// The pieces of `path` that name something, in order.
pub open spec fn named_pieces(path: Seq<char>) -> Seq<Seq<char>> {
    crate::text::split(path, '/').filter(|piece: Seq<char>| is_named(piece))
}

/// What stands before the named pieces: the root of an absolute path, or the dot
/// that a relative path begins with.
pub open spec fn leading_component(path: Seq<char>) -> Seq<Seq<char>> {
    if is_absolute(path) {
        seq![root_component()]
    } else if crate::text::split(path, '/')[0] == dot_component() {
        seq![dot_component()]
    } else {
        Seq::empty()
    }
}

/// The components of `path`.
pub open spec fn components(path: Seq<char>) -> Seq<Seq<char>> {
    leading_component(path) + named_pieces(path)
}

/// `path` put behind `base`: an absolute path replaces the base, any other is
/// appended to it, with one slash between them unless the base is empty or ends in one.
pub open spec fn joined(base: Seq<char>, path: Seq<char>) -> Seq<char> {
    if is_absolute(path) {
        path
    } else if base.len() == 0 || base.last() == '/' {
        base + path
    } else {
        base.push('/') + path
    }
}

/// The last component, where it is a name.
pub open spec fn file_name(path: Seq<char>) -> Option<Seq<char>> {
    let all = components(path);
    if all.len() > 0 && all.last() != root_component() && all.last() != dot_component()
        && all.last() != parent_component() {
        Some(all.last())
    } else {
        None
    }
}

/// What follows the last dot of the last component, where something precedes that dot.
pub open spec fn extension_of(path: Seq<char>) -> Option<Seq<char>> {
    match file_name(path) {
        Some(name) => {
            let pieces = crate::text::split(name, '.');
            if pieces.len() > 2 || (pieces.len() == 2 && pieces[0].len() > 0) {
                Some(pieces.last())
            } else {
                None
            }
        },
        None => None,
    }
}

/// Whether the components of `base` are the first components of `path`.
pub open spec fn has_prefix(path: Seq<char>, base: Seq<char>) -> bool {
    components(base).is_prefix_of(components(path))
}

// ---------------------------------------------------------------------------
// What is left to the path library
// ---------------------------------------------------------------------------

/// `Utf8Path::is_relative`: on Unix, the paths that are not relative are those that
/// begin with a slash.
#[verifier::external_body]
fn path_is_relative(path: &str) -> (r: bool)
    ensures
        r == !is_absolute(path@),
{
    Utf8Path::new(path).is_relative()
}

/// `Utf8Path::join`: `joined` says what becomes of base and path.
#[verifier::external_body]
fn path_join(base: &str, path: &str) -> (r: String)
    ensures
        r@ == joined(base@, path@),
{
    Utf8Path::new(base).join(path).into_string()
}

/// `Utf8Path::file_name`: the last component, unless it is the root, a dot, or `..`.
#[verifier::external_body]
fn path_file_name(path: &str) -> (r: Option<&str>)
    ensures
        (match r {
            Some(name) => Some(name@),
            None => None,
        }) == file_name(path@),
{
    Utf8Path::new(path).file_name()
}

/// `Utf8Path::extension`: the part of the file name behind its last dot; none without a
/// file name, without a dot, or where the only dot comes first.
#[verifier::external_body]
fn path_extension(path: &str) -> (r: Option<&str>)
    ensures
        (match r {
            Some(ext) => Some(ext@),
            None => None,
        }) == extension_of(path@),
{
    Utf8Path::new(path).extension()
}

/// The text that `Utf8Path::strip_prefix` leaves of a path when a base is taken off.
pub uninterp spec fn stripped(path: Seq<char>, base: Seq<char>) -> Seq<char>;

/// `Utf8Path::strip_prefix`: fails exactly where the base is not a prefix, component by
/// component; else gives the path made of the remaining components.
#[verifier::external_body]
fn path_strip_prefix<'a>(path: &'a str, base: &str) -> (r: Option<&'a str>)
    ensures
        r is Some <==> has_prefix(path@, base@),
        r matches Some(rest) ==> {
            &&& rest@ == stripped(path@, base@)
            &&& components(rest@) == components(path@).skip(components(base@).len() as int)
        },
{
    match Utf8Path::new(path).strip_prefix(base) {
        Ok(rest) => Some(rest.as_str()),
        Err(_) => None,
    }
}

/// `==` on `Utf8Path`: compares component by component.
#[verifier::external_body]
fn path_eq(a: &str, b: &str) -> (r: bool)
    ensures
        r == (components(a@) == components(b@)),
{
    Utf8Path::new(a) == Utf8Path::new(b)
}

/// `<` on `Utf8Path`: compares component by component, as `path_precedes` says.
#[verifier::external_body]
fn path_lt(a: &str, b: &str) -> (r: bool)
    ensures
        r == path_precedes(a@, b@),
{
    Utf8Path::new(a) < Utf8Path::new(b)
}

/// How the `Debug` form of `Utf8Path` quotes and escapes a path.
pub uninterp spec fn quoted(path: Seq<char>) -> Seq<char>;

/// The `Debug` form of `Utf8Path`. It depends on the path alone; where nothing needs an escape
/// it is the path in quotes. How anything else is escaped is left unsaid.
#[verifier::external_body]
fn path_debug(path: &str) -> (r: String)
    ensures
        r@ == quoted(path@),
        is_unescaped(path@) ==> r@ == in_quotes(path@),
{
    format!("{:?}", Utf8Path::new(path))
}

// ---------------------------------------------------------------------------
// RemotePath
// ---------------------------------------------------------------------------

/// Path on the remote storage, relative to some inner prefix.
/// The prefix is an implementation detail, that allows representing local paths
/// as the remote ones, stripping the local storage prefix away.
#[derive(Debug)]
pub struct RemotePath {
    text: String,
}

/// A path that was to be relative and is not.
#[derive(Debug)]
pub struct NotRelative {
    pub path: String,
}

/// A path that was to begin with another and does not.
#[derive(Debug, Clone, Copy, PartialEq, Eq, Structural)]
pub struct NotAPrefix;

impl View for RemotePath {
    type V = Seq<char>;

    closed spec fn view(&self) -> Seq<char> {
        self.text@
    }
}

impl NotRelative {
    /// The message of this error.
    pub open spec fn message(self) -> Seq<char> {
        "Path "@ + quoted(self.path@) + " is not relative"@
    }

    /// Writes the message of this error.
    pub fn to_string(&self) -> (r: String)
        ensures
            r@ == self.message(),
            is_unescaped(self.path@) ==> r@ == "Path "@ + in_quotes(self.path@)
                + " is not relative"@,
    {
        let path = path_debug(self.path.as_str());
        concat3("Path ", path.as_str(), " is not relative")
    }
}

impl RemotePath {
    /// A remote path, from a relative path.
    pub fn new(relative_path: &str) -> (r: Result<Self, NotRelative>)
        ensures
            r is Ok <==> !is_absolute(relative_path@),
            r matches Ok(path) ==> path@ == relative_path@,
            r matches Err(e) ==> e.path@ == relative_path@,
    {
        if path_is_relative(relative_path) {
            Ok(RemotePath { text: owned(relative_path) })
        } else {
            Err(NotRelative { path: owned(relative_path) })
        }
    }

    /// A remote path, from the text of a relative path.
    pub fn from_string(relative_path: &str) -> (r: Result<Self, NotRelative>)
        ensures
            r is Ok <==> !is_absolute(relative_path@),
            r matches Ok(path) ==> path@ == relative_path@,
            r matches Err(e) ==> e.path@ == relative_path@,
    {
        Self::new(relative_path)
    }

    /// The remote path that was stored as `text`, taken as it is.
    pub fn from_stored(text: String) -> (r: Self)
        ensures
            r@ == text@,
    {
        RemotePath { text }
    }

    /// The text of this path, as it is shown and stored.
    pub fn to_string(&self) -> (r: String)
        ensures
            r@ == self@,
    {
        owned(self.text.as_str())
    }

    /// The form of this path that error messages show.
    pub fn to_debug_string(&self) -> (r: String)
        ensures
            r@ == "RemotePath("@ + quoted(self@) + ")"@,
            is_unescaped(self@) ==> r@ == "RemotePath("@ + in_quotes(self@) + ")"@,
    {
        let path = path_debug(self.text.as_str());
        concat3("RemotePath(", path.as_str(), ")")
    }

    /// This path, put behind a base path.
    pub fn with_base(&self, base_path: &str) -> (r: String)
        ensures
            r@ == joined(base_path@, self@),
    {
        path_join(base_path, self.text.as_str())
    }

    /// The name of the object: the last component, where it is a name.
    pub fn object_name(&self) -> (r: Option<&str>)
        ensures
            (match r {
                Some(name) => Some(name@),
                None => None,
            }) == file_name(self@),
    {
        path_file_name(self.text.as_str())
    }

    /// `path`, put behind this path.
    pub fn join(&self, path: &str) -> (r: Self)
        ensures
            r@ == joined(self@, path@),
    {
        RemotePath { text: path_join(self.text.as_str(), path) }
    }

    /// The text of this path.
    pub fn get_path(&self) -> (r: &str)
        ensures
            r@ == self@,
    {
        self.text.as_str()
    }

    /// The extension of the object's name.
    pub fn extension(&self) -> (r: Option<&str>)
        ensures
            (match r {
                Some(ext) => Some(ext@),
                None => None,
            }) == extension_of(self@),
    {
        path_extension(self.text.as_str())
    }

    /// What is left of this path when `p` is taken off its beginning.
    pub fn strip_prefix(&self, p: &RemotePath) -> (r: Result<&str, NotAPrefix>)
        ensures
            r is Ok <==> has_prefix(self@, p@),
            r matches Ok(rest) ==> {
                &&& rest@ == stripped(self@, p@)
                &&& components(rest@) == components(self@).skip(components(p@).len() as int)
            },
    {
        match path_strip_prefix(self.text.as_str(), p.text.as_str()) {
            Some(rest) => Ok(rest),
            None => Err(NotAPrefix),
        }
    }

    /// This path with a slash behind it.
    pub fn add_trailing_slash(&self) -> (r: Self)
        ensures
            r@ == self@ + "/"@,
    {
        RemotePath { text: concat2(self.text.as_str(), "/") }
    }
}

impl vstd::std_specs::cmp::PartialEqSpecImpl for RemotePath {
    open spec fn obeys_eq_spec() -> bool {
        true
    }

    open spec fn eq_spec(&self, other: &Self) -> bool {
        components(self@) == components(other@)
    }
}

impl PartialEq for RemotePath {
    /// Two remote paths are equal when they have the same components.
    fn eq(&self, other: &Self) -> (r: bool) {
        path_eq(self.text.as_str(), other.text.as_str())
    }
}

impl Eq for RemotePath {

}

impl vstd::std_specs::cmp::PartialOrdSpecImpl for RemotePath {
    open spec fn obeys_partial_cmp_spec() -> bool {
        true
    }

    open spec fn partial_cmp_spec(&self, other: &Self) -> Option<Ordering> {
        if components(self@) == components(other@) {
            Some(Ordering::Equal)
        } else if path_precedes(self@, other@) {
            Some(Ordering::Less)
        } else {
            Some(Ordering::Greater)
        }
    }
}

impl PartialOrd for RemotePath {
    /// Remote paths are ordered component by component.
    fn partial_cmp(&self, other: &Self) -> (r: Option<Ordering>) {
        proof {
            law_paths_are_ordered(self@, other@, self@);
        }
        if path_lt(self.text.as_str(), other.text.as_str()) {
            Some(Ordering::Less)
        } else if path_eq(self.text.as_str(), other.text.as_str()) {
            Some(Ordering::Equal)
        } else {
            Some(Ordering::Greater)
        }
    }
}

impl Clone for RemotePath {
    fn clone(&self) -> (r: Self)
        ensures
            r == *self,
    {
        RemotePath { text: self.text.clone() }
    }
}

// ---------------------------------------------------------------------------
// Laws
// ---------------------------------------------------------------------------

proof fn lemma_named_pieces_concat(a: Seq<char>, b: Seq<char>)
    ensures
        named_pieces(a.push('/') + b) == named_pieces(a) + named_pieces(b),
{
    let keep = |piece: Seq<char>| is_named(piece);
    crate::text::lemma_split_concat(a, b, '/');
    Seq::filter_distributes_over_add(
        crate::text::split(a, '/'),
        crate::text::split(b, '/'),
        keep,
    );
}

/// No named piece holds a slash, and none is a single dot.
proof fn lemma_named_pieces(path: Seq<char>)
    ensures
        forall|i: int|
            0 <= i < named_pieces(path).len() ==> {
                &&& is_named(#[trigger] named_pieces(path)[i])
                &&& !named_pieces(path)[i].contains('/')
            },
{
    let keep = |piece: Seq<char>| is_named(piece);
    let all = crate::text::split(path, '/');
    crate::text::lemma_split_pieces(path, '/');
    assert forall|i: int| 0 <= i < named_pieces(path).len() implies {
        &&& is_named(#[trigger] named_pieces(path)[i])
        &&& !named_pieces(path)[i].contains('/')
    } by {
        let piece = named_pieces(path)[i];
        crate::seqs::lemma_filter_member(all, keep, i);
        let k = choose|k: int| 0 <= k < all.len() && all[k] == piece;
        assert(!all[k].contains('/'));
    }
}

/// The empty path has no components.
proof fn lemma_empty_path(path: Seq<char>)
    requires
        path.len() == 0,
    ensures
        named_pieces(path) == Seq::<Seq<char>>::empty(),
        components(path) == Seq::<Seq<char>>::empty(),
{
    let keep = |piece: Seq<char>| is_named(piece);
    let none = Seq::<Seq<char>>::empty();
    assert(crate::text::split(path, '/') =~= none.push(Seq::empty()));
    crate::seqs::lemma_filter_empty(none, keep);
    crate::seqs::lemma_filter_push(none, keep, Seq::empty());
    assert(components(path) =~= none);
}

/// A slash behind a path that is not empty changes nothing in its components.
pub proof fn law_trailing_slash_keeps_components(path: Seq<char>)
    requires
        path.len() > 0,
    ensures
        components(path + "/"@) == components(path),
{
    reveal_strlit("/");
    assert(path + "/"@ =~= path.push('/') + Seq::<char>::empty());
    lemma_named_pieces_concat(path, Seq::empty());
    crate::text::lemma_split_concat(path, Seq::empty(), '/');
    crate::text::lemma_split_nonempty(path, '/');
    lemma_empty_path(Seq::empty());
    assert(components(path + "/"@) =~= components(path));
}

/// A slash behind a path changes neither the object's name nor its extension.
pub proof fn law_trailing_slash_keeps_name(path: Seq<char>)
    ensures
        file_name(path + "/"@) == file_name(path),
        extension_of(path + "/"@) == extension_of(path),
{
    if path.len() > 0 {
        law_trailing_slash_keeps_components(path);
    } else {
        reveal_strlit("/");
        let slash = path + "/"@;
        assert(slash =~= seq!['/']);
        assert(slash =~= path.push('/') + path);
        lemma_empty_path(path);
        lemma_named_pieces_concat(path, path);
        assert(components(slash) =~= seq![root_component()]);
    }
}

/// The components of a relative path behind a base are those of the base, then the
/// named pieces of the path.
pub proof fn law_joined_components(base: Seq<char>, path: Seq<char>)
    requires
        base.len() > 0,
        !is_absolute(path),
    ensures
        components(joined(base, path)) == components(base) + named_pieces(path),
{
    let whole = joined(base, path);
    crate::text::lemma_split_nonempty(base, '/');
    if base.last() == '/' {
        let stem = base.drop_last();
        assert(base =~= stem.push('/') + Seq::<char>::empty());
        assert(whole =~= stem.push('/') + path);
        lemma_named_pieces_concat(stem, path);
        lemma_named_pieces_concat(stem, Seq::empty());
        crate::text::lemma_split_concat(stem, path, '/');
        crate::text::lemma_split_concat(stem, Seq::empty(), '/');
        crate::text::lemma_split_nonempty(stem, '/');
        lemma_empty_path(Seq::empty());
        assert(leading_component(whole) == leading_component(base));
    } else {
        lemma_named_pieces_concat(base, path);
        crate::text::lemma_split_concat(base, path, '/');
        assert(leading_component(whole) == leading_component(base));
    }
    assert(components(whole) =~= components(base) + named_pieces(path));
}

/// Taking a path off what was joined behind it gives the joined path back, component by
/// component. (A path that begins with a dot loses that dot when it is joined behind a
/// path that is not empty.)
pub proof fn law_strip_prefix_undoes_join(base: Seq<char>, path: Seq<char>)
    requires
        !is_absolute(path),
        base.len() == 0 || leading_component(path).len() == 0,
    ensures
        has_prefix(joined(base, path), base),
        components(joined(base, path)).skip(components(base).len() as int) == components(path),
{
    if base.len() > 0 {
        law_joined_components(base, path);
        assert(components(path) =~= named_pieces(path));
        assert((components(base) + named_pieces(path)).skip(components(base).len() as int)
            =~= named_pieces(path));
    } else {
        assert(joined(base, path) =~= path);
        lemma_empty_path(base);
        assert(components(path).skip(0) =~= components(path));
    }
}

/// An object keeps its name when its path is put behind a base.
pub proof fn law_join_keeps_name(base: Seq<char>, path: Seq<char>)
    requires
        file_name(path) is Some,
    ensures
        file_name(joined(base, path)) == file_name(path),
        extension_of(joined(base, path)) == extension_of(path),
{
    lemma_named_pieces(path);
    if is_absolute(path) {
    } else if base.len() == 0 {
        assert(joined(base, path) =~= path);
    } else {
        law_joined_components(base, path);
        let named = named_pieces(path);
        let lead = leading_component(path);
        if named.len() == 0 {
            assert(components(path) =~= lead);
            assert(false);
        }
        assert(components(path).last() == named.last());
        assert((components(base) + named).last() == named.last());
    }
}

/// Putting a relative path behind a base puts exactly one slash between them, or none where the
/// base is empty; an absolute path takes the base's place.
pub proof fn law_joining(base: Seq<char>, path: Seq<char>)
    requires
        path.len() == 0 || path[0] != '/',
    ensures
        joined(Seq::empty(), path) == path,
        joined(base.push('/'), path) == base + seq!['/'] + path,
        base.len() > 0 && base.last() != '/' ==> joined(base, path) == base + seq!['/'] + path,
        joined(base, seq!['/'] + path) == seq!['/'] + path,
        is_absolute(seq!['/'] + path),
        !is_absolute(path),
{
    assert(Seq::<char>::empty() + path =~= path);
    assert(base.push('/') + path =~= base + seq!['/'] + path);
}

/// A name behind a directory is the name of the object there, whatever the directory, and the
/// part of it behind its last dot is its extension, if something stands before that dot.
pub proof fn law_names(dir: Seq<char>, stem: Seq<char>, ext: Seq<char>, name: Seq<char>)
    requires
        dir.len() > 0,
        name.len() > 0,
        !name.contains('/'),
        name != seq!['.'],
        name != seq!['.', '.'],
    ensures
        file_name(dir.push('/') + name) == Some(name),
        file_name(name) == Some(name),
        !name.contains('.') ==> extension_of(dir.push('/') + name) is None,
        name == stem.push('.') + ext && stem.len() > 0 && !ext.contains('.') ==> extension_of(
            dir.push('/') + name,
        ) == Some(ext),
        name == seq!['.'] + ext && !ext.contains('.') ==> extension_of(dir.push('/') + name)
            is None,
{
    let path = dir.push('/') + name;
    lemma_named_piece(name);
    lemma_named_pieces_concat(dir, name);
    assert(named_pieces(path).last() == name);
    assert(components(path).last() == name);
    assert(root_component() == seq!['/']);
    assert(name != root_component()) by {
        if name == root_component() {
            assert(name[0] == '/');
        }
    }
    assert(components(name).last() == name);
    if !name.contains('.') {
        crate::text::law_split_finds_parts(seq![name], '.');
    }
    if name == seq!['.'] + ext && !ext.contains('.') {
        let none = Seq::<char>::empty();
        assert(none.push('.') + ext =~= name);
        crate::text::lemma_split_concat(none, ext, '.');
        crate::text::law_split_finds_parts(seq![none], '.');
        crate::text::law_split_finds_parts(seq![ext], '.');
        let pieces = crate::text::split(name, '.');
        assert(crate::text::split(none, '.') == seq![none]);
        assert(crate::text::split(ext, '.') == seq![ext]);
        assert(pieces.len() == 2 && pieces[0] == none);
    }
    if name == stem.push('.') + ext && stem.len() > 0 && !ext.contains('.') {
        crate::text::lemma_split_concat(stem, ext, '.');
        crate::text::law_split_finds_parts(seq![ext], '.');
        crate::text::lemma_split_nonempty(stem, '.');
        let before = crate::text::split(stem, '.');
        let pieces = crate::text::split(name, '.');
        assert(pieces == before + seq![ext]);
        assert(pieces.last() == ext);
        if before.len() == 1 {
            crate::text::law_split_joins_back(stem, '.');
            assert(before[0] == stem);
            assert(pieces[0] == stem);
        }
    }
}

/// A name is a path of one named piece.
proof fn lemma_named_piece(name: Seq<char>)
    requires
        name.len() > 0,
        !name.contains('/'),
        name != seq!['.'],
    ensures
        named_pieces(name) == seq![name],
{
    let keep = |piece: Seq<char>| is_named(piece);
    assert(seq![name][0] == name);
    crate::text::law_split_finds_parts(seq![name], '/');
    assert(is_named(name));
    assert forall|i: int| 0 <= i < seq![name].len() implies keep(#[trigger] seq![name][i]) by {}
    crate::seqs::lemma_filter_all(seq![name], keep);
}

/// One path begins with another exactly if the components of the other come first among its
/// own; every path begins with itself.
pub proof fn law_prefixes(path: Seq<char>, base: Seq<char>)
    ensures
        has_prefix(path, base) <==> components(base).len() <= components(path).len()
            && forall|i: int|
            0 <= i < components(base).len() ==> #[trigger] components(base)[i] == components(
                path,
            )[i],
        has_prefix(path, path),
{
    let a = components(base);
    let b = components(path);
    if a.len() <= b.len() && forall|i: int| 0 <= i < a.len() ==> #[trigger] a[i] == b[i] {
        assert(b.subrange(0, a.len() as int) =~= a);
    }
    assert(b.subrange(0, b.len() as int) =~= b);
}

proof fn lemma_join_begins(words: Seq<Seq<char>>, sep: Seq<char>)
    requires
        words.len() > 0,
        words[0].len() > 0,
    ensures
        join(words, sep).len() > 0,
        join(words, sep)[0] == words[0][0],
    decreases words.len(),
{
    if words.len() > 1 {
        lemma_join_begins(words.drop_last(), sep);
    }
}

/// Words with slashes between them are the components of a relative path; with a slash before
/// the first they are the components under the root; and a trailing slash, slashes that follow
/// each other and single dots behind the first word add nothing.
pub proof fn law_components_of_words(words: Seq<Seq<char>>, more: Seq<Seq<char>>)
    requires
        words.len() > 0,
        more.len() > 0,
        forall|i: int|
            0 <= i < words.len() ==> (#[trigger] words[i]).len() > 0 && !words[i].contains('/')
                && words[i] != seq!['.'],
        forall|i: int|
            0 <= i < more.len() ==> !(#[trigger] more[i]).contains('/') && (more[i].len() == 0
                || more[i] == seq!['.']),
    ensures
        components(join(words, seq!['/'])) == words,
        components(seq!['/'] + join(words, seq!['/'])) == seq![seq!['/']] + words,
        components(join(words, seq!['/']).push('/') + join(more, seq!['/'])) == words,
{
    let path = join(words, seq!['/']);
    let keep = |piece: Seq<char>| is_named(piece);
    lemma_join_begins(words, seq!['/']);
    crate::text::law_split_finds_parts(words, '/');
    assert forall|i: int| 0 <= i < words.len() implies keep(#[trigger] words[i]) by {}
    crate::seqs::lemma_filter_all(words, keep);
    assert(named_pieces(path) == words);
    assert(path[0] != '/') by {
        if path[0] == '/' {
            assert(words[0][0] == '/');
            assert(words[0].contains('/'));
        }
    }
    assert(leading_component(path) =~= Seq::empty());
    assert(components(path) =~= words);
    let none = Seq::<char>::empty();
    let rooted = seq!['/'] + path;
    assert(rooted =~= none.push('/') + path);
    lemma_empty_path(none);
    lemma_named_pieces_concat(none, path);
    assert(named_pieces(rooted) =~= words);
    assert(components(rooted) =~= seq![seq!['/']] + words);
    let rest = join(more, seq!['/']);
    crate::text::law_split_finds_parts(more, '/');
    lemma_nothing_named(more);
    lemma_named_pieces_concat(path, rest);
    crate::text::lemma_split_concat(path, rest, '/');
    let longer = path.push('/') + rest;
    assert(longer[0] == path[0]);
    assert(crate::text::split(longer, '/')[0] == words[0]);
    assert(leading_component(longer) =~= Seq::empty());
    assert(components(longer) =~= words);
}

proof fn lemma_nothing_named(pieces: Seq<Seq<char>>)
    requires
        forall|i: int|
            0 <= i < pieces.len() ==> (#[trigger] pieces[i]).len() == 0 || pieces[i] == seq!['.'],
    ensures
        pieces.filter(|piece: Seq<char>| is_named(piece)) == Seq::<Seq<char>>::empty(),
    decreases pieces.len(),
{
    let keep = |piece: Seq<char>| is_named(piece);
    if pieces.len() == 0 {
        crate::seqs::lemma_filter_empty(pieces, keep);
    } else {
        let init = pieces.drop_last();
        assert forall|i: int| 0 <= i < init.len() implies (#[trigger] init[i]).len() == 0 || init[i]
            == seq!['.'] by {
            assert(init[i] == pieces[i]);
        }
        lemma_nothing_named(init);
        assert(pieces =~= init.push(pieces.last()));
        assert(pieces.last() == pieces[pieces.len() - 1]);
        crate::seqs::lemma_filter_push(init, keep, pieces.last());
    }
}

} // verus!
