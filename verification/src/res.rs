//! Resource paths: references to files in the game's archives.
//!
//! A resource path is stored as the FNV-1a hash of its canonical form. The
//! rules below are this library's own model of the game's path handling,
//! taken from the examples the bindings document: the canonical form of a
//! path is obtained by removing enclosing quotes, splitting it on both `/`
//! and `\`, dropping empty components, lowercasing ASCII letters, and
//! joining the components with `\`. The canonical form must be non-empty,
//! at most [`ResourcePath::MAX_LENGTH`] bytes long, and be made of plain
//! components only: no `..` component, no leading `.` component and no
//! drive prefix. The checks are made in that order.
use vstd::prelude::*;
use vstd::string::StringSliceAdditionalSpecFns;

use crate::hash::{fnv1a64_bytes, spec_fnv1a64};

verus! {

/// Why a string is not a valid resource path.
#[derive(Debug, Clone, Copy, PartialEq, Eq, Structural)]
pub enum ResourcePathError {
    /// The path has no component.
    Empty,
    /// The canonical path is longer than [`ResourcePath::MAX_LENGTH`] bytes.
    TooLong,
    /// The path is not a plain relative path inside an archive, such as
    /// `base\mod\character.ent`.
    NotCanonical,
}

/// The byte `'`.
pub const SINGLE_QUOTE: u8 = 0x27u8;
/// The byte `"`.
pub const DOUBLE_QUOTE: u8 = 0x22u8;
/// The byte `/`.
pub const SLASH: u8 = 0x2Fu8;
/// The byte `\`, which separates the components of a canonical path.
pub const BACKSLASH: u8 = 0x5Cu8;
/// The byte `.`.
pub const DOT: u8 = 0x2Eu8;
/// The byte `:`.
pub const COLON: u8 = 0x3Au8;

pub open spec fn is_quote(b: u8) -> bool {
    b == SINGLE_QUOTE || b == DOUBLE_QUOTE
}

pub open spec fn is_separator(b: u8) -> bool {
    b == SLASH || b == BACKSLASH
}

pub open spec fn is_ascii_alpha(b: u8) -> bool {
    (0x41 <= b && b <= 0x5A) || (0x61 <= b && b <= 0x7A)
}

/// ASCII lowercasing of one byte; other bytes are left alone.
pub open spec fn ascii_lower(b: u8) -> u8 {
    if 0x41 <= b && b <= 0x5A {
        (b + 0x20) as u8
    } else {
        b
    }
}

/// Removes the leading quotes.
pub open spec fn strip_leading_quotes(s: Seq<u8>) -> Seq<u8>
    decreases s.len(),
{
    if s.len() > 0 && is_quote(s[0]) {
        strip_leading_quotes(s.drop_first())
    } else {
        s
    }
}

/// Removes the trailing quotes.
pub open spec fn strip_trailing_quotes(s: Seq<u8>) -> Seq<u8>
    decreases s.len(),
{
    if s.len() > 0 && is_quote(s.last()) {
        strip_trailing_quotes(s.drop_last())
    } else {
        s
    }
}

/// Removes the quotes that enclose a path.
pub open spec fn trim_quotes(s: Seq<u8>) -> Seq<u8> {
    strip_trailing_quotes(strip_leading_quotes(s))
}

/// ASCII lowercasing of a byte string.
pub open spec fn lower_all(s: Seq<u8>) -> Seq<u8> {
    s.map_values(|b: u8| ascii_lower(b))
}

/// Splitting a byte string on separators, read left to right: the
/// components completed so far (all non-empty) and the one in progress.
pub open spec fn split_state(s: Seq<u8>) -> (Seq<Seq<u8>>, Seq<u8>)
    decreases s.len(),
{
    if s.len() == 0 {
        (Seq::empty(), Seq::empty())
    } else {
        let (done, cur) = split_state(s.drop_last());
        let b = s.last();
        if is_separator(b) {
            if cur.len() > 0 {
                (done.push(cur), Seq::empty())
            } else {
                (done, Seq::empty())
            }
        } else {
            (done, cur.push(b))
        }
    }
}

/// The non-empty components of a byte string split on `/` and `\`.
pub open spec fn components(s: Seq<u8>) -> Seq<Seq<u8>> {
    let (done, cur) = split_state(s);
    if cur.len() > 0 {
        done.push(cur)
    } else {
        done
    }
}

/// Components joined with `\`.
pub open spec fn join_components(c: Seq<Seq<u8>>) -> Seq<u8>
    decreases c.len(),
{
    if c.len() == 0 {
        Seq::empty()
    } else if c.len() == 1 {
        c[0]
    } else {
        join_components(c.drop_last()) + seq![BACKSLASH] + c.last()
    }
}

/// The components of the canonical form of a path.
pub open spec fn canonical_components(path: Seq<u8>) -> Seq<Seq<u8>> {
    components(lower_all(trim_quotes(path)))
}

/// The canonical form of a path.
pub open spec fn canonical_path(path: Seq<u8>) -> Seq<u8> {
    join_components(canonical_components(path))
}

/// A `..` component.
pub open spec fn is_parent_dir(c: Seq<u8>) -> bool {
    c.len() == 2 && c[0] == DOT && c[1] == DOT
}

/// A `.` component.
pub open spec fn is_cur_dir(c: Seq<u8>) -> bool {
    c.len() == 1 && c[0] == DOT
}

/// A component that begins with a drive prefix such as `c:`.
pub open spec fn has_drive_prefix(c: Seq<u8>) -> bool {
    c.len() >= 2 && is_ascii_alpha(c[0]) && c[1] == COLON
}

/// Components that make a plain path: no `..`, and the first one is neither
/// `.` nor a drive prefix. A `.` after the first component is allowed, as
/// path parsing drops it.
pub open spec fn plain_components(c: Seq<Seq<u8>>) -> bool {
    &&& c.len() > 0 ==> !is_cur_dir(c[0]) && !has_drive_prefix(c[0])
    &&& forall|i: int| 0 <= i < c.len() ==> !is_parent_dir(#[trigger] c[i])
}

/// The result of parsing a path given as bytes: the hash of its canonical
/// form, or why it is refused.
pub open spec fn spec_resource_path(path: Seq<u8>) -> Result<u64, ResourcePathError> {
    let c = canonical_components(path);
    if c.len() == 0 {
        Err(ResourcePathError::Empty)
    } else if join_components(c).len() > ResourcePath::MAX_LENGTH {
        Err(ResourcePathError::TooLong)
    } else if !plain_components(c) {
        Err(ResourcePathError::NotCanonical)
    } else {
        Ok(spec_fnv1a64(join_components(c)))
    }
}

/// A path to a resource in the game's archives, stored as the hash of its
/// canonical form.
#[derive(Debug, Clone, Copy, PartialEq, Eq, Hash, Structural)]
pub struct ResourcePath {
    hash: u64,
}

impl View for ResourcePath {
    type V = u64;

    /// A resource path is seen as the hash of its canonical form.
    closed spec fn view(&self) -> u64 {
        self.hash
    }
}

/// A parse result seen through the view of the path.
pub open spec fn path_result_view(r: Result<ResourcePath, ResourcePathError>) -> Result<u64, ResourcePathError> {
    match r {
        Ok(p) => Ok(p@),
        Err(e) => Err(e),
    }
}

impl ResourcePath {
    /// The longest canonical path accepted, in bytes.
    pub const MAX_LENGTH: usize = 216usize;

    /// Two resource paths are equal exactly when their hashes are.
    pub proof fn lemma_view_eq(a: ResourcePath, b: ResourcePath)
        ensures
            (a@ == b@) <==> a == b,
    {
    }

    /// The hash of the canonical form.
    pub fn hash(&self) -> (hash: u64)
        ensures
            hash == self@,
    {
        self.hash
    }

    /// Parses a path, which need not be in canonical form.
    pub fn new(path: &str) -> (res: Result<ResourcePath, ResourcePathError>)
        ensures
            path_result_view(res) == spec_resource_path(path.spec_bytes()),
    {
        Self::from_bytes(path.as_bytes())
    }

    /// Parses a path given as bytes.
    pub fn from_bytes(path: &[u8]) -> (res: Result<ResourcePath, ResourcePathError>)
        ensures
            path_result_view(res) == spec_resource_path(path@),
    {
        let (start, end) = quote_bounds(path);
        let (joined, count, plain) = canonicalize(path, start, end);
        if count == 0 {
            Err(ResourcePathError::Empty)
        } else if joined.len() > Self::MAX_LENGTH {
            Err(ResourcePathError::TooLong)
        } else if !plain {
            Err(ResourcePathError::NotCanonical)
        } else {
            Ok(ResourcePath { hash: fnv1a64_bytes(joined.as_slice()) })
        }
    }
}

proof fn lemma_strip_leading_skip(s: Seq<u8>, i: int)
    requires
        0 <= i < s.len(),
        is_quote(s[i]),
    ensures
        strip_leading_quotes(s.skip(i)) == strip_leading_quotes(s.skip(i + 1)),
{
    assert(s.skip(i).drop_first() =~= s.skip(i + 1));
}

proof fn lemma_strip_trailing_take(s: Seq<u8>, j: int)
    requires
        0 < j <= s.len(),
        is_quote(s[j - 1]),
    ensures
        strip_trailing_quotes(s.take(j)) == strip_trailing_quotes(s.take(j - 1)),
{
    assert(s.take(j).drop_last() =~= s.take(j - 1));
}

/// The bounds of the path once its enclosing quotes are removed.
fn quote_bounds(path: &[u8]) -> (r: (usize, usize))
    ensures
        r.0 <= r.1 <= path@.len(),
        path@.subrange(r.0 as int, r.1 as int) == trim_quotes(path@),
{
    let n = path.len();
    let mut start: usize = 0;
    assert(path@.skip(0) =~= path@);
    while start < n && (path[start] == SINGLE_QUOTE || path[start] == DOUBLE_QUOTE)
        invariant
            n == path@.len(),
            start <= n,
            strip_leading_quotes(path@) == strip_leading_quotes(path@.skip(start as int)),
        decreases n - start,
    {
        proof {
            lemma_strip_leading_skip(path@, start as int);
        }
        start = start + 1;
    }
    let ghost rest = path@.skip(start as int);
    assert(strip_leading_quotes(rest) == rest);
    let mut end: usize = n;
    assert(rest.take(rest.len() as int) =~= rest);
    while end > start && (path[end - 1] == SINGLE_QUOTE || path[end - 1] == DOUBLE_QUOTE)
        invariant
            n == path@.len(),
            start <= end <= n,
            rest == path@.skip(start as int),
            strip_trailing_quotes(rest) == strip_trailing_quotes(rest.take(end - start)),
        decreases end - start,
    {
        proof {
            assert(rest[end - start - 1] == path@[end - 1]);
            lemma_strip_trailing_take(rest, end - start);
        }
        end = end - 1;
    }
    assert(rest.take(end - start) =~= path@.subrange(start as int, end as int));
    (start, end)
}


/// Whether a completed component keeps the path plain, given whether it is
/// the first component.
fn component_is_plain(c: &Vec<u8>, first: bool) -> (r: bool)
    ensures
        r == (!is_parent_dir(c@) && (first ==> !is_cur_dir(c@) && !has_drive_prefix(c@))),
{
    let n = c.len();
    let parent = n == 2 && c[0] == DOT && c[1] == DOT;
    if parent {
        return false;
    }
    if first {
        if n == 1 && c[0] == DOT {
            return false;
        }
        if n >= 2 {
            let b = c[0];
            let alpha = (0x41u8 <= b && b <= 0x5Au8) || (0x61u8 <= b && b <= 0x7Au8);
            if alpha && c[1] == COLON {
                return false;
            }
        }
    }
    true
}

proof fn lemma_join_push(done: Seq<Seq<u8>>, c: Seq<u8>)
    ensures
        join_components(done.push(c)) == if done.len() == 0 {
            c
        } else {
            join_components(done) + seq![BACKSLASH] + c
        },
{
    assert(done.push(c).drop_last() =~= done);
    if done.len() == 0 {
        assert(done.push(c).len() == 1);
    }
}

proof fn lemma_plain_push(done: Seq<Seq<u8>>, c: Seq<u8>)
    ensures
        plain_components(done.push(c)) == (plain_components(done) && !is_parent_dir(c) && (
        done.len() == 0 ==> !is_cur_dir(c) && !has_drive_prefix(c))),
{
    let d = done.push(c);
    if plain_components(d) {
        assert forall|i: int| 0 <= i < done.len() implies !is_parent_dir(#[trigger] done[i]) by {
            assert(d[i] == done[i]);
        }
        assert(d[done.len() as int] == c);
        if done.len() > 0 {
            assert(d[0] == done[0]);
        }
    }
    if plain_components(done) && !is_parent_dir(c) && (done.len() == 0 ==> !is_cur_dir(c)
        && !has_drive_prefix(c)) {
        assert forall|i: int| 0 <= i < d.len() implies !is_parent_dir(#[trigger] d[i]) by {
            if i < done.len() {
                assert(d[i] == done[i]);
            }
        }
        if done.len() > 0 {
            assert(d[0] == done[0]);
        }
    }
}

/// Appends the bytes of `src` to `dst`.
fn append_bytes(dst: &mut Vec<u8>, src: &Vec<u8>)
    ensures
        final(dst)@ == old(dst)@ + src@,
{
    let mut i: usize = 0;
    while i < src.len()
        invariant
            i <= src@.len(),
            dst@ == old(dst)@ + src@.take(i as int),
        decreases src@.len() - i,
    {
        assert(src@.take(i + 1) =~= src@.take(i as int).push(src@[i as int]));
        dst.push(src[i]);
        i = i + 1;
    }
    assert(src@.take(i as int) =~= src@);
}

/// Splits `path[start..end]` on separators, lowercasing it: the components
/// joined with `\`, how many there are, and whether they make a plain path.
fn canonicalize(path: &[u8], start: usize, end: usize) -> (r: (Vec<u8>, usize, bool))
    requires
        start <= end <= path@.len(),
    ensures
        r.0@ == join_components(components(lower_all(path@.subrange(start as int, end as int)))),
        r.1 == components(lower_all(path@.subrange(start as int, end as int))).len(),
        r.2 == plain_components(components(lower_all(path@.subrange(start as int, end as int)))),
{
    let ghost s = path@.subrange(start as int, end as int);
    let mut joined: Vec<u8> = Vec::new();
    let mut count: usize = 0;
    let mut plain: bool = true;
    let mut cur: Vec<u8> = Vec::new();
    let mut i: usize = start;
    assert(lower_all(s.take(0)) =~= Seq::<u8>::empty());
    while i < end
        invariant
            start <= i <= end <= path@.len(),
            s == path@.subrange(start as int, end as int),
            count + cur@.len() <= i - start,
            ({
                let (done, c) = split_state(lower_all(s.take(i - start)));
                &&& joined@ == join_components(done)
                &&& count == done.len()
                &&& plain == plain_components(done)
                &&& cur@ == c
            }),
        decreases end - i,
    {
        let ghost prev = lower_all(s.take(i - start));
        let ghost next = lower_all(s.take(i - start + 1));
        let raw = path[i];
        let b = if 0x41u8 <= raw && raw <= 0x5Au8 {
            raw + 0x20u8
        } else {
            raw
        };
        proof {
            assert(s[i - start] == raw);
            assert(next =~= prev.push(b));
            assert(next.drop_last() =~= prev);
            assert(next.last() == b);
        }
        let ghost (done, c) = split_state(prev);
        if b == SLASH || b == BACKSLASH {
            if cur.len() > 0 {
                let ok = component_is_plain(&cur, count == 0);
                proof {
                    lemma_join_push(done, c);
                    lemma_plain_push(done, c);
                }
                plain = plain && ok;
                if count > 0 {
                    joined.push(BACKSLASH);
                }
                append_bytes(&mut joined, &cur);
                count = count + 1;
                cur = Vec::new();
            }
        } else {
            cur.push(b);
        }
        i = i + 1;
    }
    assert(s.take(end - start) =~= s);
    let ghost (done, c) = split_state(lower_all(s));
    if cur.len() > 0 {
        let ok = component_is_plain(&cur, count == 0);
        proof {
            lemma_join_push(done, c);
            lemma_plain_push(done, c);
        }
        plain = plain && ok;
        if count > 0 {
            joined.push(BACKSLASH);
        }
        append_bytes(&mut joined, &cur);
        count = count + 1;
    }
    (joined, count, plain)
}


/// The bytes of `buf` with `comp` appended as a further component, the way
/// Windows paths are joined: a component with a drive prefix replaces the
/// path; a component that starts with a separator replaces all but the
/// path's drive prefix; any other component is appended after a `\`, unless
/// the path is empty, already ends with a separator, or is a bare drive
/// prefix.
pub open spec fn spec_join_path(buf: Seq<u8>, comp: Seq<u8>) -> Seq<u8> {
    if has_drive_prefix(comp) {
        comp
    } else if comp.len() > 0 && is_separator(comp[0]) {
        if has_drive_prefix(buf) {
            buf.take(2) + comp
        } else {
            comp
        }
    } else if buf.len() > 0 && !is_separator(buf.last()) && !(buf.len() == 2 && has_drive_prefix(
        buf,
    )) {
        buf + seq![BACKSLASH] + comp
    } else {
        buf + comp
    }
}

/// Builds a resource path from components, as a path would be joined.
#[derive(Debug)]
pub struct ResourcePathBuilder {
    components: Vec<u8>,
}

impl View for ResourcePathBuilder {
    type V = Seq<u8>;

    /// The path joined so far.
    closed spec fn view(&self) -> Seq<u8> {
        self.components@
    }
}

impl Default for ResourcePathBuilder {
    fn default() -> (b: ResourcePathBuilder)
        ensures
            b@ == Seq::<u8>::empty(),
    {
        ResourcePathBuilder { components: Vec::new() }
    }
}

fn starts_with_drive_prefix(s: &[u8]) -> (r: bool)
    ensures
        r == has_drive_prefix(s@),
{
    if s.len() < 2 {
        return false;
    }
    let b = s[0];
    ((0x41u8 <= b && b <= 0x5Au8) || (0x61u8 <= b && b <= 0x7Au8)) && s[1] == COLON
}

/// Copies bytes into a new vector.
fn bytes_to_vec(src: &[u8]) -> (v: Vec<u8>)
    ensures
        v@ == src@,
{
    let mut v: Vec<u8> = Vec::new();
    let mut i: usize = 0;
    while i < src.len()
        invariant
            i <= src@.len(),
            v@ == src@.take(i as int),
        decreases src@.len() - i,
    {
        assert(src@.take(i + 1) =~= src@.take(i as int).push(src@[i as int]));
        v.push(src[i]);
        i = i + 1;
    }
    assert(src@.take(i as int) =~= src@);
    v
}

impl ResourcePathBuilder {
    /// Appends a component to the path.
    pub fn join(self, component: &str) -> (b: ResourcePathBuilder)
        ensures
            b@ == spec_join_path(self@, component.spec_bytes()),
    {
        let comp = bytes_to_vec(component.as_bytes());
        let buf = self.components;
        let n = buf.len();
        if starts_with_drive_prefix(comp.as_slice()) {
            return ResourcePathBuilder { components: comp };
        }
        if comp.len() > 0 && (comp[0] == SLASH || comp[0] == BACKSLASH) {
            if starts_with_drive_prefix(buf.as_slice()) {
                let mut out: Vec<u8> = Vec::new();
                out.push(buf[0]);
                out.push(buf[1]);
                assert(out@ =~= buf@.take(2));
                append_bytes(&mut out, &comp);
                return ResourcePathBuilder { components: out };
            }
            return ResourcePathBuilder { components: comp };
        }
        let bare_drive = n == 2 && starts_with_drive_prefix(buf.as_slice());
        let mut out = buf;
        if n > 0 && !(out[n - 1] == SLASH || out[n - 1] == BACKSLASH) && !bare_drive {
            out.push(BACKSLASH);
        }
        append_bytes(&mut out, &comp);
        ResourcePathBuilder { components: out }
    }

    /// Parses the joined path.
    pub fn build(self) -> (res: Result<ResourcePath, ResourcePathError>)
        ensures
            path_result_view(res) == spec_resource_path(self@),
    {
        ResourcePath::from_bytes(self.components.as_slice())
    }
}

/// A reference to a resource in the game's archives. Corresponds to
/// `ResRef` in redscript.
#[derive(Debug, Clone, Copy, PartialEq, Eq, Hash, Structural)]
pub struct ResRef {
    path: ResourcePath,
}

impl View for ResRef {
    type V = u64;

    /// A resource reference is seen as the hash of its path.
    closed spec fn view(&self) -> u64 {
        self.path@
    }
}

impl ResRef {
    /// Creates a reference to the resource at `path`.
    pub fn new(path: &str) -> (res: Result<ResRef, ResourcePathError>)
        ensures
            match res {
                Ok(r) => spec_resource_path(path.spec_bytes()) == Ok::<u64, ResourcePathError>(r@),
                Err(e) => spec_resource_path(path.spec_bytes()) == Err::<u64, ResourcePathError>(e),
            },
    {
        match ResourcePath::new(path) {
            Ok(p) => Ok(ResRef { path: p }),
            Err(e) => Err(e),
        }
    }

    /// The path this reference points at.
    pub fn path(&self) -> (p: ResourcePath)
        ensures
            p@ == self@,
    {
        self.path
    }
}


/// What parsing a path gives: a path is accepted exactly when its
/// canonical form is non-empty, at most [`ResourcePath::MAX_LENGTH`] bytes
/// long and plain, and it is then the hash of that canonical form; a path
/// with no component is empty, and a non-empty canonical form over the
/// limit is too long, whatever else is wrong with it.
pub proof fn lemma_resource_path_results(path: Seq<u8>)
    ensures
        spec_resource_path(path) is Ok <==> (canonical_components(path).len() > 0
            && canonical_path(path).len() <= ResourcePath::MAX_LENGTH && plain_components(
            canonical_components(path),
        )),
        spec_resource_path(path) matches Ok(h) ==> h == spec_fnv1a64(canonical_path(path)),
        canonical_components(path).len() == 0 ==> spec_resource_path(path) == Err::<
            u64,
            ResourcePathError,
        >(ResourcePathError::Empty),
        canonical_components(path).len() > 0 && canonical_path(path).len()
            > ResourcePath::MAX_LENGTH ==> spec_resource_path(path) == Err::<u64, ResourcePathError>(
            ResourcePathError::TooLong,
        ),
        spec_resource_path(path) == Err::<u64, ResourcePathError>(ResourcePathError::NotCanonical)
            ==> !plain_components(canonical_components(path)),
{
}

/// Whether `comp` is appended after a `\` when joined to `buf`.
pub open spec fn needs_separator(buf: Seq<u8>) -> bool {
    buf.len() > 0 && !is_separator(buf.last()) && !(buf.len() == 2 && has_drive_prefix(buf))
}

proof fn lemma_prefix_drive(p: Seq<u8>, q: Seq<u8>)
    requires
        p.len() >= 2,
    ensures
        has_drive_prefix(p + q) == has_drive_prefix(p),
        (p + q).take(2) == p.take(2),
{
    assert((p + q)[0] == p[0] && (p + q)[1] == p[1]);
    assert((p + q).take(2) =~= p.take(2));
}

proof fn lemma_join_keeps_drive(b: Seq<u8>, x: Seq<u8>)
    requires
        !has_drive_prefix(x),
    ensures
        has_drive_prefix(spec_join_path(b, x)) == has_drive_prefix(b),
        has_drive_prefix(b) ==> spec_join_path(b, x).take(2) == b.take(2),
{
    let j = spec_join_path(b, x);
    if x.len() > 0 && is_separator(x[0]) {
        if has_drive_prefix(b) {
            lemma_prefix_drive(b.take(2), x);
        }
    } else if needs_separator(b) {
        if b.len() >= 2 {
            lemma_prefix_drive(b, seq![BACKSLASH] + x);
            assert(j =~= b + (seq![BACKSLASH] + x));
        } else {
            assert(j[1] == BACKSLASH);
        }
    } else {
        if b.len() >= 2 {
            lemma_prefix_drive(b, x);
        } else if b.len() == 1 {
            assert(j[0] == b[0]);
        } else {
            assert(j =~= x);
        }
    }
}

/// Joining two components one after the other is joining the path that the
/// two components joined make: `b.join(x).join(y)` builds what
/// `b.join(x.join(y))` builds.
pub proof fn lemma_join_associative(b: Seq<u8>, x: Seq<u8>, y: Seq<u8>)
    ensures
        spec_join_path(spec_join_path(b, x), y) == spec_join_path(b, spec_join_path(x, y)),
{
    let j = spec_join_path(b, x);
    let jx = spec_join_path(x, y);
    if has_drive_prefix(y) {
    } else if y.len() > 0 && is_separator(y[0]) {
        if has_drive_prefix(x) {
            lemma_prefix_drive(x.take(2), y);
        } else {
            lemma_join_keeps_drive(b, x);
        }
    } else if has_drive_prefix(x) {
        if needs_separator(x) {
            lemma_prefix_drive(x, seq![BACKSLASH] + y);
            assert(jx =~= x + (seq![BACKSLASH] + y));
        } else {
            lemma_prefix_drive(x, y);
        }
    } else if x.len() > 0 && is_separator(x[0]) {
        assert(!has_drive_prefix(jx));
        assert(jx[0] == x[0]);
        assert(j.last() == x.last());
        if has_drive_prefix(b) {
            assert(j =~= b.take(2) + x);
            if needs_separator(x) {
                assert(j + seq![BACKSLASH] + y =~= b.take(2) + jx);
            } else {
                assert(j + y =~= b.take(2) + jx);
            }
        } else {
            assert(j =~= x);
        }
    } else if x.len() == 0 {
        assert(jx =~= y);
        if needs_separator(b) {
            assert(j =~= b + seq![BACKSLASH]);
            assert(j + y =~= b + seq![BACKSLASH] + y);
        } else {
            assert(j =~= b);
        }
    } else {
        assert(needs_separator(j) == needs_separator(x)) by {
            if needs_separator(b) {
                assert(j =~= b + seq![BACKSLASH] + x);
            } else if b.len() == 0 {
                assert(j =~= x);
            } else {
                assert(j =~= b + x);
                if b.len() == 1 && x.len() == 1 {
                    assert(j[0] == b[0]);
                }
            }
        }
        assert(!has_drive_prefix(jx)) by {
            if x.len() >= 2 {
                if needs_separator(x) {
                    lemma_prefix_drive(x, seq![BACKSLASH] + y);
                    assert(jx =~= x + (seq![BACKSLASH] + y));
                } else {
                    lemma_prefix_drive(x, y);
                }
            } else {
                assert(jx[1] == BACKSLASH);
            }
        }
        assert(!(jx.len() > 0 && is_separator(jx[0]))) by {
            assert(jx[0] == x[0]);
        }
        if needs_separator(b) {
            if needs_separator(x) {
                assert(j + seq![BACKSLASH] + y =~= b + seq![BACKSLASH] + jx);
            } else {
                assert(j + y =~= b + seq![BACKSLASH] + jx);
            }
        } else {
            if needs_separator(x) {
                assert(j + seq![BACKSLASH] + y =~= b + jx);
            } else {
                assert(j + y =~= b + jx);
            }
        }
    }
}


/// Two byte strings that differ at most in which separator stands where.
pub open spec fn same_but_separators(a: Seq<u8>, b: Seq<u8>) -> bool {
    &&& a.len() == b.len()
    &&& forall|i: int|
        0 <= i < a.len() ==> (#[trigger] a[i] == #[trigger] b[i] || (is_separator(a[i])
            && is_separator(b[i])))
}

proof fn lemma_same_but_separators_strip_leading(a: Seq<u8>, b: Seq<u8>)
    requires
        same_but_separators(a, b),
    ensures
        same_but_separators(strip_leading_quotes(a), strip_leading_quotes(b)),
    decreases a.len(),
{
    if a.len() > 0 {
        assert(a[0] == b[0] || (is_separator(a[0]) && is_separator(b[0])));
        if is_quote(a[0]) || is_quote(b[0]) {
            assert(a[0] == b[0]);
            let (a1, b1) = (a.drop_first(), b.drop_first());
            assert forall|i: int| 0 <= i < a1.len() implies (#[trigger] a1[i] == #[trigger] b1[i]
                || (is_separator(a1[i]) && is_separator(b1[i]))) by {
                assert(a1[i] == a[i + 1] && b1[i] == b[i + 1]);
            }
            lemma_same_but_separators_strip_leading(a1, b1);
        }
    }
}

proof fn lemma_same_but_separators_strip_trailing(a: Seq<u8>, b: Seq<u8>)
    requires
        same_but_separators(a, b),
    ensures
        same_but_separators(strip_trailing_quotes(a), strip_trailing_quotes(b)),
    decreases a.len(),
{
    if a.len() > 0 {
        let k = a.len() - 1;
        assert(a[k] == b[k] || (is_separator(a[k]) && is_separator(b[k])));
        if is_quote(a.last()) || is_quote(b.last()) {
            let (a1, b1) = (a.drop_last(), b.drop_last());
            assert forall|i: int| 0 <= i < a1.len() implies (#[trigger] a1[i] == #[trigger] b1[i]
                || (is_separator(a1[i]) && is_separator(b1[i]))) by {
                assert(a1[i] == a[i] && b1[i] == b[i]);
            }
            lemma_same_but_separators_strip_trailing(a1, b1);
        }
    }
}

proof fn lemma_same_but_separators_lower(a: Seq<u8>, b: Seq<u8>)
    requires
        same_but_separators(a, b),
    ensures
        same_but_separators(lower_all(a), lower_all(b)),
{
    let (la, lb) = (lower_all(a), lower_all(b));
    assert forall|i: int| 0 <= i < la.len() implies (#[trigger] la[i] == #[trigger] lb[i] || (
    is_separator(la[i]) && is_separator(lb[i]))) by {
        assert(a[i] == b[i] || (is_separator(a[i]) && is_separator(b[i])));
    }
}

proof fn lemma_same_but_separators_split(a: Seq<u8>, b: Seq<u8>)
    requires
        same_but_separators(a, b),
    ensures
        split_state(a) == split_state(b),
    decreases a.len(),
{
    if a.len() > 0 {
        let (a1, b1) = (a.drop_last(), b.drop_last());
        assert forall|i: int| 0 <= i < a1.len() implies (#[trigger] a1[i] == #[trigger] b1[i] || (
        is_separator(a1[i]) && is_separator(b1[i]))) by {
            assert(a1[i] == a[i] && b1[i] == b[i]);
        }
        lemma_same_but_separators_split(a1, b1);
        let k = a.len() - 1;
        assert(a[k] == b[k] || (is_separator(a[k]) && is_separator(b[k])));
    }
}

/// A resource path does not depend on which of `/` and `\` separates its
/// components: two paths that differ only in their separators parse alike.
pub proof fn lemma_separators_interchangeable(a: Seq<u8>, b: Seq<u8>)
    requires
        same_but_separators(a, b),
    ensures
        spec_resource_path(a) == spec_resource_path(b),
        canonical_path(a) == canonical_path(b),
{
    lemma_same_but_separators_strip_leading(a, b);
    lemma_same_but_separators_strip_trailing(strip_leading_quotes(a), strip_leading_quotes(b));
    lemma_same_but_separators_lower(trim_quotes(a), trim_quotes(b));
    lemma_same_but_separators_split(lower_all(trim_quotes(a)), lower_all(trim_quotes(b)));
}


/// Two byte strings that differ at most in the case of ASCII letters.
pub open spec fn same_but_case(a: Seq<u8>, b: Seq<u8>) -> bool {
    &&& a.len() == b.len()
    &&& forall|i: int| 0 <= i < a.len() ==> ascii_lower(#[trigger] a[i]) == ascii_lower(#[trigger] b[i])
}

proof fn lemma_same_but_case_strip_leading(a: Seq<u8>, b: Seq<u8>)
    requires
        same_but_case(a, b),
    ensures
        same_but_case(strip_leading_quotes(a), strip_leading_quotes(b)),
    decreases a.len(),
{
    if a.len() > 0 {
        assert(ascii_lower(a[0]) == ascii_lower(b[0]));
        if is_quote(a[0]) || is_quote(b[0]) {
            assert(a[0] == b[0]);
            let (a1, b1) = (a.drop_first(), b.drop_first());
            assert forall|i: int| 0 <= i < a1.len() implies ascii_lower(#[trigger] a1[i]) == ascii_lower(
                #[trigger] b1[i],
            ) by {
                assert(a1[i] == a[i + 1] && b1[i] == b[i + 1]);
            }
            lemma_same_but_case_strip_leading(a1, b1);
        }
    }
}

proof fn lemma_same_but_case_strip_trailing(a: Seq<u8>, b: Seq<u8>)
    requires
        same_but_case(a, b),
    ensures
        same_but_case(strip_trailing_quotes(a), strip_trailing_quotes(b)),
    decreases a.len(),
{
    if a.len() > 0 {
        let k = a.len() - 1;
        assert(ascii_lower(a[k]) == ascii_lower(b[k]));
        if is_quote(a.last()) || is_quote(b.last()) {
            assert(a[k] == b[k]);
            let (a1, b1) = (a.drop_last(), b.drop_last());
            assert forall|i: int| 0 <= i < a1.len() implies ascii_lower(#[trigger] a1[i]) == ascii_lower(
                #[trigger] b1[i],
            ) by {
                assert(a1[i] == a[i] && b1[i] == b[i]);
            }
            lemma_same_but_case_strip_trailing(a1, b1);
        }
    }
}

/// A resource path does not depend on the case of ASCII letters: two paths
/// that differ only in case parse alike.
pub proof fn lemma_case_insensitive(a: Seq<u8>, b: Seq<u8>)
    requires
        same_but_case(a, b),
    ensures
        spec_resource_path(a) == spec_resource_path(b),
        canonical_path(a) == canonical_path(b),
{
    lemma_same_but_case_strip_leading(a, b);
    lemma_same_but_case_strip_trailing(strip_leading_quotes(a), strip_leading_quotes(b));
    let (ta, tb) = (trim_quotes(a), trim_quotes(b));
    assert(lower_all(ta) =~= lower_all(tb)) by {
        assert forall|i: int| 0 <= i < ta.len() implies lower_all(ta)[i] == lower_all(tb)[i] by {
            assert(ascii_lower(ta[i]) == ascii_lower(tb[i]));
        }
    }
}

} // verus!
