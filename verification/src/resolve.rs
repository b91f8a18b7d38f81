//! Filename resolution: from the path of the final (post-redirect) URL to a
//! filesystem-safe filename, and from there to the pair of transient paths
//! (source file and archive) that one request owns.

use vstd::prelude::*;

verus! {

/// Index just after the last `/` of `s`; `0` when `s` holds no `/`.
pub open spec fn seg_start_spec(s: Seq<char>) -> int
    decreases s.len(),
{
    if s.len() == 0 {
        0
    } else if s[s.len() - 1] == '/' {
        s.len() as int
    } else {
        seg_start_spec(s.drop_last())
    }
}

/// The start of the last segment is a position within `s`.
proof fn lemma_seg_start_in_range(s: Seq<char>)
    ensures
        0 <= seg_start_spec(s) <= s.len(),
    decreases s.len(),
{
    if s.len() > 0 && s[s.len() - 1] != '/' {
        lemma_seg_start_in_range(s.drop_last());
    }
}

/// The last `/`-separated segment of `s`: everything after the last slash,
/// all of `s` when it holds none, empty when `s` ends with a slash.
pub open spec fn last_segment_spec(s: Seq<char>) -> Seq<char> {
    s.subrange(seg_start_spec(s), s.len() as int)
}

/// The last `/`-separated segment of `s`.
pub fn last_segment(s: &str) -> (r: String)
    ensures
        r@ == last_segment_spec(s@),
{
    let n = s.unicode_len();
    proof {
        assert(s@.subrange(0, n as int) =~= s@);
        lemma_seg_start_in_range(s@);
    }
    let mut i: usize = n;
    while i > 0 && s.get_char(i - 1) != '/'
        invariant
            i <= n,
            n == s@.len(),
            seg_start_spec(s@) == seg_start_spec(s@.subrange(0, i as int)),
            seg_start_spec(s@.subrange(0, i as int)) <= i,
        decreases i,
    {
        proof {
            assert(s@.subrange(0, i as int).drop_last() =~= s@.subrange(0, i as int - 1));
            lemma_seg_start_in_range(s@.subrange(0, i as int - 1));
        }
        i = i - 1;
    }
    let r = s.substring_char(i, n);
    r.to_owned()
}

/// The name given out when the URL path yields no usable segment.
pub open spec fn fallback_filename() -> Seq<char> {
    "downloaded_file"@
}

/// A string that is safe as a single relative path component: non-empty,
/// free of path separators, and not a `.` or `..` reference.
pub open spec fn is_safe_component(s: Seq<char>) -> bool {
    &&& s.len() > 0
    &&& forall|i: int| 0 <= i < s.len() ==> s[i] != '/' && s[i] != '\\'
    &&& s != seq!['.']
    &&& s != seq!['.', '.']
}

/// What `sanitize_component` returns for a given name. The sanitization
/// policy is fixed, so the result depends on the name alone.
pub uninterp spec fn sanitized_of(name: Seq<char>) -> Seq<char>;

/// Relies on `sanitize_filename::sanitize_with_options`, called with a fixed
/// policy (windows rules on, truncation on, empty replacement), to turn an
/// untrusted name into a safe filename. Its source first deletes every
/// character of the class `[/\?<>\\:\*\|":]` and every control character,
/// then replaces a result consisting only of dots by the empty string, so
/// the outcome never holds a path separator and never equals `.` or `..`
/// (truncation to 255 bytes afterwards cannot reintroduce either).
#[verifier::external_body]
fn sanitize_component(name: &str) -> (r: String)
    ensures
        r@ == sanitized_of(name@),
        forall|i: int| 0 <= i < r@.len() ==> r@[i] != '/' && r@[i] != '\\',
        r@ != seq!['.'],
        r@ != seq!['.', '.'],
{
    sanitize_filename::sanitize_with_options(
        name,
        sanitize_filename::Options { windows: true, truncate: true, replacement: "" },
    )
}

/// The filename the pipeline uses for a URL path: its last segment after
/// sanitization, or the fallback name when the segment is absent or the
/// sanitizer leaves nothing.
pub open spec fn resolved_filename_spec(path: Seq<char>) -> Seq<char> {
    if last_segment_spec(path).len() == 0 {
        fallback_filename()
    } else if sanitized_of(last_segment_spec(path)).len() == 0 {
        fallback_filename()
    } else {
        sanitized_of(last_segment_spec(path))
    }
}

/// Derives a safe filename from a URL path. Total: any input resolves to a
/// single safe path component, never to a path outside the working
/// directory; the worst case is the fallback name.
pub fn resolve_filename(path: &str) -> (r: String)
    ensures
        r@ == resolved_filename_spec(path@),
        is_safe_component(r@),
{
    proof {
        reveal_strlit("downloaded_file");
        assert(fallback_filename() =~= seq![
            'd', 'o', 'w', 'n', 'l', 'o', 'a', 'd', 'e', 'd', '_', 'f', 'i', 'l', 'e',
        ]);
        assert(is_safe_component(fallback_filename()));
    }
    let seg = last_segment(path);
    if seg.as_str().is_empty() {
        "downloaded_file".to_owned()
    } else {
        let cleaned = sanitize_component(seg.as_str());
        if cleaned.as_str().is_empty() {
            "downloaded_file".to_owned()
        } else {
            cleaned
        }
    }
}

/// The transient paths owned by one request: the fetched file and the
/// archive derived from it by the fixed `.zip` suffix.
pub struct ResolvedTarget {
    pub source_path: String,
    pub archive_path: String,
}

impl ResolvedTarget {
    /// The source path is a safe single component and the archive path is
    /// exactly the source path with the fixed suffix.
    pub open spec fn wf(&self) -> bool {
        &&& is_safe_component(self.source_path@)
        &&& self.archive_path@ == self.source_path@ + ".zip"@
    }
}

/// Resolves the pair of transient paths for a URL path.
pub fn resolve_target(path: &str) -> (t: ResolvedTarget)
    ensures
        t.wf(),
        t.source_path@ == resolved_filename_spec(path@),
        t.archive_path@ == resolved_filename_spec(path@) + ".zip"@,
{
    let source = resolve_filename(path);
    let archive = source.clone().concat(".zip");
    ResolvedTarget { source_path: source, archive_path: archive }
}

} // verus!
