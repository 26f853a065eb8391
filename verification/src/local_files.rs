//! The local file-storage tool group's decision logic: filename
//! sanitization, per-user directory paths, and the display texts the
//! storage operations produce.  The process edge performs the actual
//! filesystem reads and writes at the paths computed here.

use vstd::prelude::*;
use vstd::string::StringExecFns;
use vstd::string::StringSliceAdditionalSpecFns;
use crate::text::{concat2, concat3, concat4, dec_str, join_spec, u64_to_string};

verus! {

/// The characters a sanitized filename may hold: ASCII letters and
/// digits, dot, dash and underscore.
pub open spec fn allowed_char(c: char) -> bool {
    ('a' <= c && c <= 'z') || ('A' <= c && c <= 'Z') || ('0' <= c && c <= '9') || c == '.' || c
        == '-' || c == '_'
}

/// Each character kept when allowed, replaced by an underscore
/// otherwise.
pub open spec fn mapped_char(c: char) -> char {
    if allowed_char(c) {
        c
    } else {
        '_'
    }
}

/// `s` without its leading dots.
pub open spec fn strip_leading_dots(s: Seq<char>) -> Seq<char>
    decreases s.len(),
{
    if s.len() > 0 && s[0] == '.' {
        strip_leading_dots(s.drop_first())
    } else {
        s
    }
}

/// The sanitized form of a filename: every disallowed character
/// becomes an underscore, then leading dots are stripped.
pub open spec fn sanitize_spec(s: Seq<char>) -> Seq<char> {
    strip_leading_dots(s.map_values(|c: char| mapped_char(c)))
}

/// Sanitized names hold only allowed characters - in particular no
/// path separator - and never start with a dot.
pub proof fn lemma_sanitize_safe(s: Seq<char>)
    ensures
        forall|i: int|
            0 <= i < sanitize_spec(s).len() ==> allowed_char(#[trigger] sanitize_spec(s)[i]),
        sanitize_spec(s).len() > 0 ==> sanitize_spec(s)[0] != '.',
{
    let m = s.map_values(|c: char| mapped_char(c));
    assert(forall|i: int| 0 <= i < m.len() ==> allowed_char(#[trigger] m[i]));
    lemma_strip_dots_props(m);
}

proof fn lemma_strip_dots_props(m: Seq<char>)
    ensures
        forall|i: int|
            0 <= i < strip_leading_dots(m).len() ==> exists|j: int|
                0 <= j < m.len() && #[trigger] strip_leading_dots(m)[i] == m[j],
        strip_leading_dots(m).len() > 0 ==> strip_leading_dots(m)[0] != '.',
    decreases m.len(),
{
    if m.len() > 0 && m[0] == '.' {
        lemma_strip_dots_props(m.drop_first());
        assert forall|i: int| 0 <= i < strip_leading_dots(m).len() implies exists|j: int|
            0 <= j < m.len() && #[trigger] strip_leading_dots(m)[i] == m[j] by {
            assert(strip_leading_dots(m) == strip_leading_dots(m.drop_first()));
            let j0 = choose|j0: int|
                0 <= j0 < m.drop_first().len() && strip_leading_dots(m.drop_first())[i]
                    == m.drop_first()[j0];
            assert(m.drop_first()[j0] == m[j0 + 1]);
        }
    } else {
        assert forall|i: int| 0 <= i < strip_leading_dots(m).len() implies exists|j: int|
            0 <= j < m.len() && #[trigger] strip_leading_dots(m)[i] == m[j] by {
            assert(strip_leading_dots(m)[i] == m[i]);
        }
    }
}

proof fn lemma_strip_dots_skip(m: Seq<char>, i: int)
    requires
        0 <= i <= m.len(),
        forall|j: int| 0 <= j < i ==> #[trigger] m[j] == '.',
        i < m.len() ==> m[i] != '.',
    ensures
        strip_leading_dots(m) == m.skip(i),
    decreases i,
{
    if i == 0 {
        assert(m.skip(0) =~= m);
    } else {
        assert(m[0] == '.');
        lemma_strip_dots_skip(m.drop_first(), i - 1);
        assert(m.drop_first().skip(i - 1) =~= m.skip(i));
    }
}

fn allowed_char_exec(c: char) -> (r: bool)
    ensures
        r == allowed_char(c),
{
    ('a' <= c && c <= 'z') || ('A' <= c && c <= 'Z') || ('0' <= c && c <= '9') || c == '.' || c
        == '-' || c == '_'
}

/// Sanitizes `name` for use as a filename: deterministic, only allowed
/// characters, no leading dot.
pub fn sanitize_filename(name: &str) -> (r: String)
    ensures
        r@ == sanitize_spec(name@),
{
    let cs: Vec<char> = crate::text::chars_of(name);
    let mut mapped: Vec<char> = Vec::new();
    let ghost mspec = name@.map_values(|c: char| mapped_char(c));
    let mut k: usize = 0;
    while k < cs.len()
        invariant
            0 <= k <= cs@.len(),
            cs@ == name@,
            mspec == name@.map_values(|c: char| mapped_char(c)),
            mapped@ == mspec.take(k as int),
        decreases cs@.len() - k,
    {
        let c: char = cs[k];
        if allowed_char_exec(c) {
            mapped.push(c);
        } else {
            mapped.push('_');
        }
        proof {
            assert(mapped@ =~= mspec.take((k + 1) as int));
        }
        k = k + 1;
    }
    proof {
        assert(mspec.take(mspec.len() as int) =~= mspec);
    }
    let mut i: usize = 0;
    while i < mapped.len() && mapped[i] == '.'
        invariant
            0 <= i <= mapped@.len(),
            mapped@ == mspec,
            forall|j: int| 0 <= j < i ==> #[trigger] mspec[j] == '.',
        decreases mapped@.len() - i,
    {
        i = i + 1;
    }
    proof {
        lemma_strip_dots_skip(mspec, i as int);
    }
    let mut out: Vec<char> = Vec::new();
    let mut k2: usize = i;
    while k2 < mapped.len()
        invariant
            i <= k2 <= mapped@.len(),
            mapped@ == mspec,
            out@ == mspec.subrange(i as int, k2 as int),
        decreases mapped@.len() - k2,
    {
        out.push(mapped[k2]);
        proof {
            assert(out@ =~= mspec.subrange(i as int, (k2 + 1) as int));
        }
        k2 = k2 + 1;
    }
    proof {
        assert(mspec.subrange(i as int, mspec.len() as int) =~= mspec.skip(i as int));
    }
    crate::text::string_from_chars(&out)
}

/// The directory of one user's files under `base`.
pub open spec fn user_dir_spec(base: Seq<char>, user: Seq<char>) -> Seq<char> {
    base + seq!['/'] + sanitize_spec(user)
}

/// The full path of one stored file.
pub open spec fn file_path_spec(base: Seq<char>, user: Seq<char>, name: Seq<char>) -> Seq<char> {
    user_dir_spec(base, user) + seq!['/'] + sanitize_spec(name)
}

/// Per-user isolation: when two user identities sanitize differently,
/// a file saved under the first lies at no path that a depth-one
/// listing of the second's directory could show, whatever that
/// directory's entries are.
pub proof fn lemma_user_isolation(
    base: Seq<char>,
    user_a: Seq<char>,
    user_b: Seq<char>,
    name: Seq<char>,
    entry: Seq<char>,
)
    requires
        sanitize_spec(user_a) != sanitize_spec(user_b),
    ensures
        user_dir_spec(base, user_a) != user_dir_spec(base, user_b),
        file_path_spec(base, user_a, name) != user_dir_spec(base, user_b) + seq!['/'] + entry,
{
    let sa = sanitize_spec(user_a);
    let sb = sanitize_spec(user_b);
    let sn = sanitize_spec(name);
    lemma_sanitize_safe(user_a);
    lemma_sanitize_safe(user_b);
    lemma_sanitize_safe(name);
    // Sanitized segments hold no slash.
    assert(forall|i: int| 0 <= i < sa.len() ==> #[trigger] sa[i] != '/');
    assert(forall|i: int| 0 <= i < sb.len() ==> #[trigger] sb[i] != '/');
    assert(forall|i: int| 0 <= i < sn.len() ==> #[trigger] sn[i] != '/');
    if user_dir_spec(base, user_a) == user_dir_spec(base, user_b) {
        assert((base + seq!['/'] + sa).len() == base.len() + 1 + sa.len());
        assert((base + seq!['/'] + sb).len() == base.len() + 1 + sb.len());
        assert(sa.len() == sb.len());
        assert forall|i: int| 0 <= i < sa.len() implies sa[i] == sb[i] by {
            assert(user_dir_spec(base, user_a)[base.len() as int + 1 + i] == sa[i]);
            assert(user_dir_spec(base, user_b)[base.len() as int + 1 + i] == sb[i]);
        }
        assert(sa =~= sb);
        assert(false);
    }
    let pa = file_path_spec(base, user_a, name);
    let pb = user_dir_spec(base, user_b) + seq!['/'] + entry;
    if pa == pb {
        // Both paths read `base`, a slash, a slash-free segment, then a
        // slash: the segments must have the same length, hence be equal.
        if sa.len() < sb.len() {
            assert(pa[(base.len() + 1 + sa.len()) as int] == '/');
            assert(pb[(base.len() + 1 + sa.len()) as int] == sb[sa.len() as int]);
            assert(false);
        }
        if sb.len() < sa.len() {
            assert(pb[(base.len() + 1 + sb.len()) as int] == '/');
            assert(pa[(base.len() + 1 + sb.len()) as int] == sa[sb.len() as int]);
            assert(false);
        }
        assert forall|i: int| 0 <= i < sa.len() implies sa[i] == sb[i] by {
            assert(pa[base.len() as int + 1 + i] == sa[i]);
            assert(pb[base.len() as int + 1 + i] == sb[i]);
        }
        assert(sa =~= sb);
        assert(false);
    }
}

/// The local file-storage tool group: the storage root under which
/// each user's files live in a directory of their own.
pub struct LocalFilesTools {
    pub base_dir: String,
}

impl LocalFilesTools {
    /// A tool group rooted at `base_dir`.
    pub fn new(base_dir: String) -> (r: LocalFilesTools)
        ensures
            r.base_dir == base_dir,
    {
        LocalFilesTools { base_dir }
    }

    /// The directory of `user_id`'s files.
    pub fn user_dir(&self, user_id: &str) -> (r: String)
        ensures
            r@ == user_dir_spec(self.base_dir@, user_id@),
    {
        let safe: String = sanitize_filename(user_id);
        let mut path: String = self.base_dir.clone();
        path.append("/");
        path.append(safe.as_str());
        proof {
            reveal_strlit("/");
            assert(path@ =~= user_dir_spec(self.base_dir@, user_id@));
        }
        path
    }

    /// The path at which `filename` is stored for `user_id`.
    pub fn file_path(&self, filename: &str, user_id: &str) -> (r: String)
        ensures
            r@ == file_path_spec(self.base_dir@, user_id@, filename@),
    {
        let mut path: String = self.user_dir(user_id);
        let safe: String = sanitize_filename(filename);
        path.append("/");
        path.append(safe.as_str());
        proof {
            reveal_strlit("/");
            assert(path@ =~= file_path_spec(self.base_dir@, user_id@, filename@));
        }
        path
    }

    /// The text reported after a successful save: the sanitized name
    /// and the byte count of the content.
    pub fn save_message(filename: &str, content: &str) -> (r: String)
        ensures
            r@ == "Saved "@ + sanitize_spec(filename@) + " ("@ + dec_str(content.len() as nat)
                + " bytes)"@,
    {
        let safe: String = sanitize_filename(filename);
        let n: String = u64_to_string(content.len() as u64);
        let mut msg: String = String::new();
        msg.append("Saved ");
        msg.append(safe.as_str());
        msg.append(" (");
        msg.append(n.as_str());
        msg.append(" bytes)");
        proof {
            assert(msg@ =~= "Saved "@ + sanitize_spec(filename@) + " ("@ + dec_str(
                content.len() as nat,
            ) + " bytes)"@);
        }
        msg
    }

    /// The text reported when a stored file is missing.
    pub fn not_found_message(filename: &str) -> (r: String)
        ensures
            r@ == "File not found: "@ + sanitize_spec(filename@),
    {
        let safe: String = sanitize_filename(filename);
        let mut msg: String = String::new();
        msg.append("File not found: ");
        msg.append(safe.as_str());
        proof {
            assert(msg@ =~= "File not found: "@ + sanitize_spec(filename@));
        }
        msg
    }

    /// The text reported after a deletion.
    pub fn deleted_message(filename: &str) -> (r: String)
        ensures
            r@ == "Deleted: "@ + sanitize_spec(filename@),
    {
        let safe: String = sanitize_filename(filename);
        let mut msg: String = String::new();
        msg.append("Deleted: ");
        msg.append(safe.as_str());
        proof {
            assert(msg@ =~= "Deleted: "@ + sanitize_spec(filename@));
        }
        msg
    }
}

/// One line of a file listing.
pub open spec fn listing_line(name: Seq<char>, size: u64) -> Seq<char> {
    "- "@ + name + " ("@ + dec_str(size as nat) + " bytes)"@
}

/// The listing lines for a sequence of names and sizes.
pub open spec fn listing_lines(files: Seq<(Seq<char>, u64)>) -> Seq<Seq<char>> {
    files.map_values(|f: (Seq<char>, u64)| listing_line(f.0, f.1))
}

/// The names and sizes a listing reports, as character sequences.
pub open spec fn files_view(files: Seq<(String, u64)>) -> Seq<(Seq<char>, u64)> {
    files.map_values(|f: (String, u64)| (f.0@, f.1))
}

/// The text of a depth-one listing: the fixed empty-listing text, or a
/// heading and one line per file, in order.
pub open spec fn listing_text(files: Seq<(Seq<char>, u64)>) -> Seq<char> {
    if files.len() == 0 {
        "No files saved."@
    } else {
        "**Saved Files:**\n"@ + join_spec(listing_lines(files), "\n"@)
    }
}

/// Formats a listing from the names and sizes the process edge found
/// in the user's directory, in the order it found them.
pub fn list_message(files: &Vec<(String, u64)>) -> (r: String)
    ensures
        r@ == listing_text(files_view(files@)),
{
    let ghost fv = files_view(files@);
    if files.len() == 0 {
        let mut msg: String = String::new();
        msg.append("No files saved.");
        proof {
            assert(msg@ =~= listing_text(fv));
        }
        return msg;
    }
    let mut lines: Vec<String> = Vec::new();
    let mut k: usize = 0;
    proof {
        assert(crate::text::str_views(lines@) =~= listing_lines(fv.take(0)));
    }
    while k < files.len()
        invariant
            0 <= k <= files@.len(),
            fv == files_view(files@),
            fv.len() == files@.len(),
            crate::text::str_views(lines@) == listing_lines(fv.take(k as int)),
        decreases files@.len() - k,
    {
        let n: String = u64_to_string(files[k].1);
        let mut line: String = String::new();
        line.append("- ");
        line.append(files[k].0.as_str());
        line.append(" (");
        line.append(n.as_str());
        line.append(" bytes)");
        proof {
            assert(fv[k as int] == (files@[k as int].0@, files@[k as int].1));
            assert(line@ =~= listing_line(fv[k as int].0, fv[k as int].1));
        }
        let ghost pre = lines@;
        lines.push(line);
        proof {
            assert(crate::text::str_views(pre).len() == pre.len());
            assert(listing_lines(fv.take(k as int)).len() == fv.take(k as int).len());
            assert(pre.len() == k);
            let lm = crate::text::str_views(lines@);
            let rm = listing_lines(fv.take((k + 1) as int));
            assert(lines@.len() == k + 1);
            assert(fv.take((k + 1) as int).len() == k + 1);
            assert(lm.len() == lines@.len());
            assert(rm.len() == fv.take((k + 1) as int).len());
            assert(lm.len() == rm.len());
            assert forall|i: int| 0 <= i < lm.len() implies lm[i] == rm[i] by {
                assert(rm[i] == listing_line(fv.take((k + 1) as int)[i].0, fv.take(
                    (k + 1) as int,
                )[i].1));
                if i < k {
                    assert(lm[i] == listing_lines(fv.take(k as int))[i]);
                }
            }
            assert(lm =~~= rm);
            assert(lm == rm);
        }
        k = k + 1;
    }
    let body: String = crate::text::join_strings(&lines, "\n");
    let mut msg: String = String::new();
    msg.append("**Saved Files:**\n");
    msg.append(body.as_str());
    proof {
        assert(fv.take(fv.len() as int) =~= fv);
        assert(msg@ =~= listing_text(fv));
    }
    msg
}

/// The final path segment of `s`: everything after the last slash,
/// empty for a trailing slash, the whole text when no slash occurs.
pub open spec fn last_segment(s: Seq<char>) -> Seq<char>
    decreases s.len(),
{
    if s.len() == 0 {
        s
    } else if s.last() == '/' {
        Seq::<char>::empty()
    } else {
        last_segment(s.drop_last()).push(s.last())
    }
}

/// The stored name for a file fetched from the sandbox: the requested
/// name, or the sandbox path's final segment.
pub fn local_name_for(sandbox_path: &str, local_filename: Option<String>) -> (r: String)
    ensures
        match local_filename {
            Some(n) => r == n,
            None => r@ == last_segment(sandbox_path@),
        },
{
    match local_filename {
        Some(n) => n,
        None => {
            let cs: Vec<char> = crate::text::chars_of(sandbox_path);
            let mut out: Vec<char> = Vec::new();
            let mut k: usize = 0;
            proof {
                assert(sandbox_path@.take(0) =~= Seq::<char>::empty());
            }
            while k < cs.len()
                invariant
                    0 <= k <= cs@.len(),
                    cs@ == sandbox_path@,
                    out@ == last_segment(sandbox_path@.take(k as int)),
                decreases cs@.len() - k,
            {
                proof {
                    assert(sandbox_path@.take((k + 1) as int).drop_last() =~= sandbox_path@.take(
                        k as int,
                    ));
                    assert(sandbox_path@.take((k + 1) as int).last() == sandbox_path@[k as int]);
                }
                if cs[k] == '/' {
                    out.clear();
                } else {
                    out.push(cs[k]);
                }
                k = k + 1;
            }
            proof {
                assert(sandbox_path@.take(sandbox_path@.len() as int) =~= sandbox_path@);
            }
            crate::text::string_from_chars(&out)
        },
    }
}

/// The text reported after a download from the sandbox.
pub fn downloaded_message(filename: &str) -> (r: String)
    ensures
        r@ == "Downloaded "@ + filename@ + " from sandbox"@,
{
    crate::text::concat3("Downloaded ", filename, " from sandbox")
}

/// The sandbox destination for an upload: the requested path, or the
/// home directory under the local name.
pub fn sandbox_dest(local_filename: &str, sandbox_path: Option<String>) -> (r: String)
    ensures
        match sandbox_path {
            Some(p) => r == p,
            None => r@ == "/home/user/"@ + local_filename@,
        },
{
    match sandbox_path {
        Some(p) => p,
        None => crate::text::concat2("/home/user/", local_filename),
    }
}

/// The text reported after an upload to the sandbox.
pub fn uploaded_message(local_filename: &str, dest: &str) -> (r: String)
    ensures
        r@ == "Uploaded "@ + local_filename@ + " to "@ + dest@,
{
    crate::text::concat4("Uploaded ", local_filename, " to ", dest)
}

} // verus!
