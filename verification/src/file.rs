//! Upload bookkeeping: the original name of a file segment, the checks on
//! the path an upload is written to, and the name prefix an upload request
//! carries.
use vstd::prelude::*;
use vstd::string::*;
use vstd::utf8::{decode_utf8, valid_utf8};
use crate::text::{string_from_utf8, utf8_error_text};
use vstd::arithmetic::div_mod::{lemma_mod_breakdown, lemma_small_mod};
use vstd::arithmetic::power::{lemma_pow_positive, pow};
use crate::error::Error;
use crate::text::{
    chars_of, join_parts, joined, lemma_join_split, lemma_split_concat, lemma_split_free,
    lemma_split_nonempty, push_char, split_chars, split_on, string_of, views,
};

verus! {

/// Whether `s` ends with `.xseg`, the mark of a file segment.
pub open spec fn ends_with_xseg(s: Seq<char>) -> bool {
    s.len() >= 5 && s.subrange(s.len() - 5, s.len() as int) == ".xseg"@
}

/// The name of the file a segment belongs to: a name such as
/// `report.pdf.001.xseg` loses its last two dot-separated parts; any other
/// name is its own origin.
pub open spec fn origin_file_name(s: Seq<char>) -> Seq<char> {
    let parts = split_on(s, '.');
    if !ends_with_xseg(s) || parts.len() <= 2 {
        s
    } else {
        joined(parts.take(parts.len() - 2), seq!['.'])
    }
}

/// The name of the file that `file_name` is a segment of, or `file_name`
/// itself where it is no segment.
pub fn get_origin_file_name(file_name: &str) -> (r: String)
    ensures
        r@ == origin_file_name(file_name@),
{
    let v = chars_of(file_name);
    let n = v.len();
    let is_seg = n >= 5 && v[n - 5] == '.' && v[n - 4] == 'x' && v[n - 3] == 's' && v[n - 2] == 'e'
        && v[n - 1] == 'g';
    proof {
        reveal_strlit(".xseg");
        if n >= 5 {
            let tail = v@.subrange(n - 5, n as int);
            if is_seg {
                assert(tail =~= ".xseg"@);
            } else {
                assert(tail != ".xseg"@) by {
                    if tail == ".xseg"@ {
                        assert(tail[0] == v@[n - 5]);
                        assert(tail[1] == v@[n - 4]);
                        assert(tail[2] == v@[n - 3]);
                        assert(tail[3] == v@[n - 2]);
                        assert(tail[4] == v@[n - 1]);
                    }
                }
            }
        }
    }
    if !is_seg {
        return String::from_str(file_name);
    }
    let parts = split_chars(&v, '.');
    let count = parts.len();
    if count <= 2 {
        return String::from_str(file_name);
    }
    join_parts(&parts, count - 2, '.')
}

/// A segment `base.seg.xseg` of a file named `base` leads back to `base`,
/// whatever the segment number, as long as it holds no dot.
pub proof fn lemma_origin_of_segment(base: Seq<char>, seg: Seq<char>)
    requires
        !seg.contains('.'),
    ensures
        origin_file_name(base + seq!['.'] + seg + ".xseg"@) == base,
{
    reveal_strlit(".xseg");
    let x = seq!['x', 's', 'e', 'g'];
    assert(".xseg"@ =~= seq!['.'] + x);
    let s = base + seq!['.'] + seg + ".xseg"@;
    assert(s =~= (base + seq!['.'] + seg) + seq!['.'] + x);
    assert(!x.contains('.')) by {
        if x.contains('.') {
            let k = choose|k: int| 0 <= k < x.len() && x[k] == '.';
        }
    }
    lemma_split_concat(base + seq!['.'] + seg, x, '.');
    lemma_split_concat(base, seg, '.');
    lemma_split_free(seg, '.');
    lemma_split_free(x, '.');
    lemma_split_nonempty(base, '.');
    let pb = split_on(base, '.');
    let parts = split_on(s, '.');
    assert(parts =~= pb + seq![seg] + seq![x]);
    assert(parts.take(parts.len() - 2) =~= pb);
    assert(s.subrange(s.len() - 5, s.len() as int) =~= ".xseg"@);
    lemma_join_split(base, '.');
}

/// A name that does not end with `.xseg` is no segment: it is its own
/// origin, whatever dots it holds.
pub proof fn lemma_origin_of_non_segment(s: Seq<char>)
    requires
        s.len() < 5 || s.subrange(s.len() - 5, s.len() as int) != seq!['.', 'x', 's', 'e', 'g'],
    ensures
        origin_file_name(s) == s,
{
    reveal_strlit(".xseg");
    assert(".xseg"@ =~= seq!['.', 'x', 's', 'e', 'g']);
}

/// Does nothing: any file's tag is taken as matching.
pub fn check_etag(file_name: &str, etag: &str) -> (r: Result<bool, Error>)
    ensures
        r == Ok::<bool, Error>(true),
{
    Ok(true)
}

/// Does nothing: tags are not kept.
pub fn save_etag(file_name: &str, etag: &str) -> (r: Result<(), Error>)
    ensures
        r == Ok::<(), Error>(()),
{
    Ok(())
}

/// A component of a path, as `std::path::Path::components` yields them on
/// Unix.
pub ghost enum PathComponent {
    RootDir,
    CurDir,
    ParentDir,
    Normal(Seq<char>),
}

/// Whether the path starts at the root.
pub open spec fn has_root(s: Seq<char>) -> bool {
    s.len() > 0 && s[0] == '/'
}

/// Whether a relative path starts with a lone `.` component.
pub open spec fn has_cur_dir(s: Seq<char>) -> bool {
    !has_root(s) && s.len() > 0 && s[0] == '.' && (s.len() == 1 || s[1] == '/')
}

/// Whether a segment between separators names something: it is neither
/// empty nor `.`.
pub open spec fn is_named(seg: Seq<char>) -> bool {
    seg.len() != 0 && seg != seq!['.']
}

/// The segments that name something, in order.
pub open spec fn kept_segments(segs: Seq<Seq<char>>) -> Seq<Seq<char>>
    decreases segs.len(),
{
    if segs.len() == 0 {
        Seq::empty()
    } else {
        let r = kept_segments(segs.drop_last());
        if is_named(segs.last()) {
            r.push(segs.last())
        } else {
            r
        }
    }
}

/// The component a named segment stands for.
pub open spec fn component_of(seg: Seq<char>) -> PathComponent {
    if seg == seq!['.', '.'] {
        PathComponent::ParentDir
    } else {
        PathComponent::Normal(seg)
    }
}

/// The components of a path: a root or a leading `.`, then one component
/// for each segment that names something. Repeated separators, inner `.`
/// segments and a trailing separator add nothing.
pub open spec fn path_components(s: Seq<char>) -> Seq<PathComponent> {
    let head = if has_root(s) {
        seq![PathComponent::RootDir]
    } else if has_cur_dir(s) {
        seq![PathComponent::CurDir]
    } else {
        Seq::empty()
    };
    head + kept_segments(split_on(s, '/')).map_values(|seg: Seq<char>| component_of(seg))
}

/// Whether a path is exactly one plain name.
pub open spec fn is_single_name(s: Seq<char>) -> bool {
    let c = path_components(s);
    c.len() == 1 && c[0] is Normal
}

/// Whether `path` consists of exactly one normal component, which rules out
/// absolute paths, `..` and paths into subdirectories.
pub fn path_is_valid(path: &str) -> (r: bool)
    ensures
        r == is_single_name(path@),
{
    let v = chars_of(path);
    let n = v.len();
    let root = n > 0 && v[0] == '/';
    let cur = !root && n > 0 && v[0] == '.' && (n == 1 || v[1] == '/');
    if root || cur {
        return false;
    }
    let segs = split_chars(&v, '/');
    let ghost ss = views(segs@);
    let mut kept: usize = 0;
    let mut first_is_parent = false;
    let mut i: usize = 0;
    while i < segs.len()
        invariant
            i <= segs@.len(),
            ss == views(segs@),
            kept as int == kept_segments(ss.take(i as int)).len(),
            kept <= i,
            kept >= 1 ==> first_is_parent == (kept_segments(ss.take(i as int))[0] == seq![
                '.',
                '.',
            ]),
        decreases segs.len() - i,
    {
        let seg = &segs[i];
        let ghost sg = ss[i as int];
        assert(sg == seg@);
        assert(ss.take(i + 1).drop_last() =~= ss.take(i as int));
        assert(ss.take(i + 1).last() == sg);
        let empty_or_dot = seg.len() == 0 || (seg.len() == 1 && seg[0] == '.');
        let parent = seg.len() == 2 && seg[0] == '.' && seg[1] == '.';
        proof {
            if seg@.len() == 1 && seg@[0] == '.' {
                assert(seg@ =~= seq!['.']);
            }
            if seg@ == seq!['.'] {
                assert(seg@[0] == '.');
            }
            if parent {
                assert(seg@ =~= seq!['.', '.']);
            }
            if seg@ == seq!['.', '.'] {
                assert(seg@[1] == '.');
            }
        }
        if !empty_or_dot {
            if kept == 0 {
                first_is_parent = parent;
            }
            kept = kept + 1;
        }
        i = i + 1;
    }
    assert(ss.take(ss.len() as int) =~= ss);
    let r = kept == 1 && !first_is_parent;
    proof {
        let k = kept_segments(ss);
        let c = path_components(v@);
        assert(c =~= k.map_values(|seg: Seq<char>| component_of(seg)));
        if kept == 1 {
            assert(c[0] == component_of(k[0]));
        }
    }
    r
}

/// Every segment that names something is among the kept segments.
proof fn lemma_named_kept(segs: Seq<Seq<char>>, i: int)
    requires
        0 <= i < segs.len(),
        is_named(segs[i]),
    ensures
        kept_segments(segs).contains(segs[i]),
    decreases segs.len(),
{
    let r = kept_segments(segs.drop_last());
    if i == segs.len() - 1 {
        assert(kept_segments(segs).last() == segs[i]);
    } else {
        lemma_named_kept(segs.drop_last(), i);
        assert(segs.drop_last()[i] == segs[i]);
        let k = choose|k: int| 0 <= k < r.len() && r[k] == segs[i];
        if is_named(segs.last()) {
            assert(kept_segments(segs)[k] == segs[i]);
        }
    }
}

/// A valid path cannot leave the directory it is joined to: it is not
/// absolute and none of its segments is `..`.
pub proof fn lemma_valid_path_stays_inside(path: Seq<char>)
    requires
        is_single_name(path),
    ensures
        !has_root(path),
        forall|i: int|
            0 <= i < split_on(path, '/').len() ==> #[trigger] split_on(path, '/')[i] != seq![
                '.',
                '.',
            ],
{
    let segs = split_on(path, '/');
    let k = kept_segments(segs);
    let c = path_components(path);
    if has_root(path) || has_cur_dir(path) {
        assert(c[0] == PathComponent::RootDir || c[0] == PathComponent::CurDir);
    }
    assert forall|i: int| 0 <= i < segs.len() implies #[trigger] segs[i] != seq!['.', '.'] by {
        if segs[i] == seq!['.', '.'] {
            assert(is_named(segs[i])) by {
                assert(segs[i].len() == 2);
            }
            lemma_named_kept(segs, i);
            assert(c =~= k.map_values(|seg: Seq<char>| component_of(seg)));
            assert(k.len() == 1);
            assert(k[0] == segs[i]);
            assert(c[0] == PathComponent::ParentDir);
        }
    }
}

/// An ordinary file name is accepted: one that holds no separator and is
/// neither empty, `.` nor `..`.
pub proof fn lemma_plain_name_valid(name: Seq<char>)
    requires
        !name.contains('/'),
        name.len() != 0,
        name != seq!['.'],
        name != seq!['.', '.'],
    ensures
        is_single_name(name),
{
    lemma_split_free(name, '/');
    let segs = split_on(name, '/');
    assert(segs.drop_last() =~= Seq::<Seq<char>>::empty());
    assert(kept_segments(segs.drop_last()) =~= Seq::<Seq<char>>::empty());
    assert(segs.last() == name);
    assert(is_named(name));
    assert(kept_segments(segs) =~= seq![name]);
    assert(name[0] != '/');
    if name.len() == 1 && name[0] == '.' {
        assert(name =~= seq!['.']);
    }
    if name.len() > 1 {
        assert(name[1] != '/');
    }
    let c = path_components(name);
    assert(c =~= seq![PathComponent::Normal(name)]);
}

/// The path of `name` inside `dir`, as `Path::join` forms it on Unix: an
/// absolute `name` replaces `dir`; otherwise a separator goes between them
/// unless `dir` is empty or already ends with one.
pub open spec fn joined_path(dir: Seq<char>, name: Seq<char>) -> Seq<char> {
    if has_root(name) {
        name
    } else if dir.len() > 0 && dir.last() != '/' {
        dir + seq!['/'] + name
    } else {
        dir + name
    }
}

/// The path of `name` inside `dir`.
pub fn join_path(dir: &str, name: &str) -> (r: String)
    ensures
        r@ == joined_path(dir@, name@),
{
    let nv = chars_of(name);
    if nv.len() > 0 && nv[0] == '/' {
        return String::from_str(name);
    }
    let dv = chars_of(dir);
    let mut r = String::from_str(dir);
    if dv.len() > 0 && dv[dv.len() - 1] != '/' {
        push_char(&mut r, '/');
        assert(dir@.push('/') =~= dir@ + seq!['/']);
    }
    r.append(name);
    r
}

/// Joining a relative name to a non-empty directory that does not end with
/// `/` puts exactly one `/` between them, whatever the directory's last
/// character; to a directory ending with `/` or to an empty one, nothing is
/// put between them; an absolute name replaces the directory.
pub proof fn lemma_join_separator(dir: Seq<char>, name: Seq<char>)
    ensures
        (name.len() == 0 || name[0] != '/') && dir.len() > 0 && dir[dir.len() - 1] != '/'
            ==> joined_path(dir, name) == dir + seq!['/'] + name,
        (name.len() == 0 || name[0] != '/') && (dir.len() == 0 || dir[dir.len() - 1] == '/')
            ==> joined_path(dir, name) == dir + name,
        name.len() > 0 && name[0] == '/' ==> joined_path(dir, name) == name,
{
}

/// An upload into the directory `.` is always refused: the joined path
/// `./name` starts with the current-directory component, so it is never a
/// single plain name.
pub proof fn lemma_join_into_cur_dir_refused(name: Seq<char>)
    requires
        name.len() == 0 || name[0] != '/',
    ensures
        joined_path(seq!['.'], name) == seq!['.', '/'] + name,
        !is_single_name(joined_path(seq!['.'], name)),
{
    let p = joined_path(seq!['.'], name);
    assert(p =~= seq!['.', '/'] + name);
    assert(p[0] == '.' && p[1] == '/');
    assert(has_cur_dir(p));
    assert(path_components(p)[0] == PathComponent::CurDir);
}

/// The largest size an uploaded file may announce, 5 MiB.
pub const SINGLE_FILE_MAX_SIZE: usize = 5 * 1024 * 1024;

/// The name an uploaded file is stored under: the request's prefix, a dot,
/// and the name the client gave.
pub fn upload_file_name(prefix: &str, file_name: &str) -> (r: String)
    ensures
        r@ == prefix@ + seq!['.'] + file_name@,
{
    let mut r = String::from_str(prefix);
    push_char(&mut r, '.');
    r.append(file_name);
    r
}

/// The name a field of an upload is stored under: `prefix.name` for a field
/// that carries the file name `name`; `None` for a field without a file
/// name, which is skipped.
pub fn stored_file_name(prefix: &str, file_name: Option<&str>) -> (r: Option<String>)
    ensures
        match file_name {
            Some(f) => (r matches Some(s) && s@ == prefix@ + seq!['.'] + f@),
            None => r is None,
        },
{
    match file_name {
        Some(f) => Some(upload_file_name(prefix, f)),
        None => None,
    }
}

/// Whether the first field of an upload is the uuid field: it carries a
/// name, and that name is `uuid_name`.
pub fn is_uuid_field(field_name: Option<&str>, uuid_name: &str) -> (r: bool)
    ensures
        r == (field_name matches Some(n) && n@ == uuid_name@),
{
    match field_name {
        Some(n) => String::from_str(n) == String::from_str(uuid_name),
        None => false,
    }
}

/// The path an uploaded file named `file_name` is created at inside `dir`,
/// refused unless that path is a single plain name.
pub fn upload_path(dir: &str, file_name: &str) -> (r: Result<String, Error>)
    ensures
        match r {
            Ok(p) => is_single_name(joined_path(dir@, file_name@)) && p@ == joined_path(
                dir@,
                file_name@,
            ),
            Err(e) => !is_single_name(joined_path(dir@, file_name@)) && e is LogicError
                && e.spec_detail() == "invalid path"@,
        },
{
    let path = join_path(dir, file_name);
    if !path_is_valid(path.as_str()) {
        return Err(Error::logic_error("invalid path"));
    }
    Ok(path)
}

/// Whether `r` is the answer of the size check on the announced upper
/// bound `upper_bound`: an unknown bound and a bound above
/// `SINGLE_FILE_MAX_SIZE` are refused with a logic error saying so, any
/// other bound passes.
pub open spec fn is_size_check_answer(r: Result<(), Error>, upper_bound: Option<usize>) -> bool {
    match upper_bound {
        None => r matches Err(e) && e is LogicError && e.spec_detail() == "file size not known"@,
        Some(u) => if u > SINGLE_FILE_MAX_SIZE {
            r matches Err(e) && e is LogicError && e.spec_detail() == "file size larger than 5MB"@
        } else {
            r is Ok
        },
    }
}

/// Every announced bound up to 5 MiB (5242880 bytes) passes the size check,
/// and every larger bound or an unknown one is refused; so if a bound passes,
/// every smaller bound passes too.
pub proof fn lemma_size_check_threshold(r: Result<(), Error>, upper_bound: Option<usize>)
    requires
        is_size_check_answer(r, upper_bound),
    ensures
        upper_bound matches Some(u) && u <= 5242880 ==> r is Ok,
        upper_bound matches Some(u) && u > 5242880 ==> r is Err,
        upper_bound is None ==> r is Err,
{
}

/// Of two size checks, the one on the smaller bound passes if the other
/// does.
pub proof fn lemma_size_check_monotone(
    r1: Result<(), Error>,
    u1: usize,
    r2: Result<(), Error>,
    u2: usize,
)
    requires
        is_size_check_answer(r1, Some(u1)),
        is_size_check_answer(r2, Some(u2)),
        u1 <= u2,
        r2 is Ok,
    ensures
        r1 is Ok,
{
}

/// Checks the size that an uploaded file's stream announces as its upper
/// bound: it must be known and at most `SINGLE_FILE_MAX_SIZE`.
pub fn check_upload_size(upper_bound: Option<usize>) -> (r: Result<(), Error>)
    ensures
        is_size_check_answer(r, upper_bound),
        upper_bound matches Some(u) && u <= 5242880 ==> r is Ok,
{
    match upper_bound {
        None => Err(Error::logic_error("file size not known")),
        Some(u) => if u > SINGLE_FILE_MAX_SIZE {
            Err(Error::logic_error("file size larger than 5MB"))
        } else {
            Ok(())
        },
    }
}

/// The names of the files an upload request has stored so far, in the
/// order of its fields.
pub struct UploadBatch {
    files: Vec<String>,
}

impl View for UploadBatch {
    type V = Seq<Seq<char>>;

    closed spec fn view(&self) -> Seq<Seq<char>> {
        self.files@.map_values(|f: String| f@)
    }
}

impl UploadBatch {
    /// No file stored yet.
    pub fn new() -> (r: UploadBatch)
        ensures
            r@ == Seq::<Seq<char>>::empty(),
    {
        let r = UploadBatch { files: Vec::new() };
        assert(r@ =~= Seq::<Seq<char>>::empty());
        r
    }

    /// Accepts the file stored as `file_name` whose stream announced
    /// `upper_bound` as the upper bound of its size: the size is checked as
    /// `check_upload_size` does, and on success the name is recorded.
    pub fn accept(&mut self, file_name: String, upper_bound: Option<usize>) -> (r: Result<(), Error>)
        ensures
            is_size_check_answer(r, upper_bound),
            r is Ok ==> final(self)@ == old(self)@.push(file_name@),
            r is Err ==> final(self)@ == old(self)@,
    {
        let checked = check_upload_size(upper_bound);
        if checked.is_ok() {
            self.files.push(file_name);
            assert(self@ =~= old(self)@.push(file_name@));
        }
        checked
    }

    /// The names of the stored files, in order.
    pub fn into_files(self) -> (r: Vec<String>)
        ensures
            r@.map_values(|f: String| f@) == self@,
    {
        self.files
    }
}

/// The lower-case hexadecimal digit of `d`, below 16.
pub open spec fn hex_digit(d: nat) -> char {
    if d < 10 {
        (('0' as nat) + d) as char
    } else {
        (('a' as nat) + (d - 10)) as char
    }
}

/// The last `n` hexadecimal digits of `v`, most significant first, in lower
/// case.
pub open spec fn hex_of(v: nat, n: nat) -> Seq<char>
    decreases n,
{
    if n == 0 {
        Seq::empty()
    } else {
        hex_of(v / 16, (n - 1) as nat).push(hex_digit(v % 16))
    }
}

fn hex_char(d: u8) -> (c: char)
    requires
        d < 16,
    ensures
        c == hex_digit(d as nat),
{
    match d {
        0 => '0',
        1 => '1',
        2 => '2',
        3 => '3',
        4 => '4',
        5 => '5',
        6 => '6',
        7 => '7',
        8 => '8',
        9 => '9',
        10 => 'a',
        11 => 'b',
        12 => 'c',
        13 => 'd',
        14 => 'e',
        _ => 'f',
    }
}

/// The 32 lower-case hexadecimal digits of a 128-bit value, the way a
/// uuid's simple form shows it.
pub fn simple_hex(v: u128) -> (r: String)
    ensures
        r@ == hex_of(v as nat, 32),
{
    let mut rest: u128 = v;
    let mut tail: Vec<char> = Vec::new();
    let mut i: usize = 0;
    while i < 32
        invariant
            i <= 32,
            tail@.len() == i,
            hex_of(v as nat, 32) == hex_of(rest as nat, (32 - i) as nat) + tail@,
        decreases 32 - i,
    {
        let d = (rest % 16) as u8;
        let c = hex_char(d);
        let ghost before = tail@;
        assert(hex_of(rest as nat, (32 - i) as nat) == hex_of((rest / 16) as nat, (32 - i - 1) as nat).push(c));
        tail.insert(0, c);
        assert(tail@ =~= seq![c] + before);
        assert(hex_of((rest / 16) as nat, (32 - i - 1) as nat).push(c) + before =~= hex_of((rest / 16) as nat, (32 - i - 1) as nat) + tail@);
        rest = rest / 16;
        i = i + 1;
    }
    string_of(&tail)
}

proof fn lemma_hex_digit_injective(a: nat, b: nat)
    requires
        a < 16,
        b < 16,
        hex_digit(a) == hex_digit(b),
    ensures
        a == b,
{
    let ca = hex_digit(a) as int;
    let cb = hex_digit(b) as int;
    assert(ca == if a < 10 { 48 + a as int } else { 97 + a as int - 10 });
    assert(cb == if b < 10 { 48 + b as int } else { 97 + b as int - 10 });
}

proof fn lemma_hex_injective(a: nat, b: nat, n: nat)
    requires
        hex_of(a, n) == hex_of(b, n),
    ensures
        (a as int) % pow(16, n) == (b as int) % pow(16, n),
    decreases n,
{
    if n == 0 {
        reveal(pow);
        assert(pow(16, 0) == 1);
    } else {
        let ha = hex_of(a / 16, (n - 1) as nat);
        let hb = hex_of(b / 16, (n - 1) as nat);
        assert(hex_of(a, n) == ha.push(hex_digit(a % 16)));
        assert(hex_of(b, n) == hb.push(hex_digit(b % 16)));
        assert(ha =~= hex_of(a, n).drop_last());
        assert(hb =~= hex_of(b, n).drop_last());
        assert(hex_digit(a % 16) == hex_of(a, n).last());
        assert(hex_digit(b % 16) == hex_of(b, n).last());
        lemma_hex_digit_injective(a % 16, b % 16);
        lemma_hex_injective(a / 16, b / 16, (n - 1) as nat);
        let p = pow(16, (n - 1) as nat);
        lemma_pow_positive(16, (n - 1) as nat);
        reveal(pow);
        assert(pow(16, n) == 16 * p);
        lemma_mod_breakdown(a as int, 16, p);
        lemma_mod_breakdown(b as int, 16, p);
    }
}

/// Distinct uuids give distinct name prefixes: the simple form of a 128-bit
/// value determines the value.
pub proof fn lemma_prefix_unique(a: u128, b: u128)
    requires
        hex_of(a as nat, 32) == hex_of(b as nat, 32),
    ensures
        a == b,
{
    lemma_hex_injective(a as nat, b as nat, 32);
    assert(pow(16, 32) == 0x1_0000_0000_0000_0000_0000_0000_0000_0000int) by {
        reveal_with_fuel(pow, 33);
    }
    lemma_small_mod(a as nat, pow(16, 32) as nat);
    lemma_small_mod(b as nat, pow(16, 32) as nat);
}

/// What `uuid::Uuid::parse_str` accepts, and the 128-bit value it reads
/// from the text: `None` for text it refuses.
pub uninterp spec fn uuid_value(s: Seq<char>) -> Option<u128>;

/// Calls `uuid::Uuid::parse_str` and reads the uuid as a `u128` with
/// `Uuid::as_u128`; an error is handed back as its debug rendering. The
/// contract claims that the call succeeds on the same texts on which
/// `uuid_value` is defined, and with that value; of the error text it
/// claims nothing.
#[verifier::external_body]
fn parse_uuid(s: &str) -> (r: Result<u128, String>)
    ensures
        r is Ok <==> uuid_value(s@) is Some,
        r matches Ok(v) ==> uuid_value(s@) == Some(v),
{
    match uuid::Uuid::parse_str(s) {
        Ok(u) => Ok(u.as_u128()),
        Err(e) => Err(format!("{:?}", e)),
    }
}

/// The name prefix an upload request announces in its leading field: the
/// field's bytes read as UTF-8 text, read as a uuid, and written back in
/// the uuid's simple form.
pub fn upload_prefix(data: Vec<u8>) -> (r: Result<String, Error>)
    ensures
        !valid_utf8(data@) ==> (r matches Err(e) && e is FromUtf8Error),
        valid_utf8(data@) ==> match uuid_value(decode_utf8(data@)) {
            None => r matches Err(e) && e is UuidError,
            Some(v) => r matches Ok(p) && p@ == hex_of(v as nat, 32),
        },
{
    let text = match string_from_utf8(data) {
        Ok(t) => t,
        Err(e) => {
            return Err(Error::FromUtf8Error(utf8_error_text(&e)));
        },
    };
    match parse_uuid(text.as_str()) {
        Ok(v) => Ok(simple_hex(v)),
        Err(e) => Err(Error::UuidError(e)),
    }
}

} // verus!
