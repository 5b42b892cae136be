//! The output-path resolver: a pure mapping from the input paths, a
//! destination directory, an optional naming expression and an
//! optional target format to one output path per input, with validity
//! and collision checks. Resolution is deterministic and
//! order-preserving; the runner relies on both.

use vstd::prelude::*;

use crate::error::ResolveError;
use crate::manipulator::{spec_format_from_ext, spec_primary_ext, ImageFormat};

verus! {

/// What the destination path names on disk; the caller probes the
/// file system and hands the answer in.
#[derive(Clone, Copy, Debug, PartialEq, Eq, Structural)]
pub enum DirStatus {
    Missing,
    File,
    Directory,
}

/// The index of the last occurrence of `c` in `s`, or -1.
pub open spec fn spec_last_index(s: Seq<char>, c: char) -> int
    decreases s.len(),
{
    if s.len() == 0 {
        -1
    } else if s.last() == c {
        s.len() - 1
    } else {
        spec_last_index(s.drop_last(), c)
    }
}

/// The file-name portion of a path: everything after the last slash.
pub open spec fn spec_file_name(p: Seq<char>) -> Seq<char> {
    p.subrange(spec_last_index(p, '/') + 1, p.len() as int)
}

/// Whether a file name carries an extension: it has a dot that is not
/// its first character.
pub open spec fn spec_has_ext(name: Seq<char>) -> bool {
    spec_last_index(name, '.') > 0
}

/// The extension of a file name (after its last dot), or empty.
pub open spec fn spec_ext_of_name(name: Seq<char>) -> Seq<char> {
    if spec_has_ext(name) {
        name.subrange(spec_last_index(name, '.') + 1, name.len() as int)
    } else {
        Seq::empty()
    }
}

/// The stem of a file name (before its last dot), or all of it.
pub open spec fn spec_stem_of_name(name: Seq<char>) -> Seq<char> {
    if spec_has_ext(name) {
        name.subrange(0, spec_last_index(name, '.'))
    } else {
        name
    }
}

/// The extension of the file name of a path.
pub open spec fn spec_ext_of(p: Seq<char>) -> Seq<char> {
    spec_ext_of_name(spec_file_name(p))
}

/// A destination directory joined with a file name.
pub open spec fn spec_join(dest: Seq<char>, name: Seq<char>) -> Seq<char> {
    if dest.len() == 0 {
        name
    } else if dest.last() == '/' {
        dest + name
    } else {
        dest + "/"@ + name
    }
}

/// The decimal digit characters.
pub open spec fn spec_digit(d: nat) -> char {
    if d == 0 {
        '0'
    } else if d == 1 {
        '1'
    } else if d == 2 {
        '2'
    } else if d == 3 {
        '3'
    } else if d == 4 {
        '4'
    } else if d == 5 {
        '5'
    } else if d == 6 {
        '6'
    } else if d == 7 {
        '7'
    } else if d == 8 {
        '8'
    } else {
        '9'
    }
}

/// The decimal spelling of a number, without sign or padding.
pub open spec fn spec_dec(n: nat) -> Seq<char>
    decreases n,
{
    if n < 10 {
        seq![spec_digit(n)]
    } else {
        spec_dec(n / 10).push(spec_digit(n % 10))
    }
}

/// The index of the last occurrence of `c` in `s`, if any.
pub fn last_index_of(s: &str, c: char) -> (r: Option<usize>)
    ensures
        match r {
            Option::Some(i) => i < s@.len() && spec_last_index(s@, c) == i as int,
            Option::None => spec_last_index(s@, c) == -1,
        },
{
    let n = s.unicode_len();
    let mut i: usize = 0;
    let mut found: Option<usize> = None;
    while i < n
        invariant
            i <= n,
            n == s@.len(),
            match found {
                Option::Some(k) => k < i && spec_last_index(s@.take(i as int), c) == k as int,
                Option::None => spec_last_index(s@.take(i as int), c) == -1,
            },
        decreases n - i,
    {
        proof {
            assert(s@.take(i + 1).drop_last() =~= s@.take(i as int));
            assert(s@.take(i + 1).last() == s@[i as int]);
        }
        if s.get_char(i) == c {
            found = Some(i);
        }
        i = i + 1;
    }
    proof {
        assert(s@.take(n as int) =~= s@);
    }
    found
}

/// The file-name portion of a path: everything after the last slash.
pub fn file_name_of(p: &str) -> (r: String)
    ensures
        r@ == spec_file_name(p@),
{
    let n = p.unicode_len();
    match last_index_of(p, '/') {
        Option::Some(i) => p.substring_char(i + 1, n).to_owned(),
        Option::None => {
            proof {
                assert(p@.subrange(0, p@.len() as int) =~= p@);
            }
            p.to_owned()
        },
    }
}

/// Whether a file name carries an extension.
pub fn has_ext_name(name: &str) -> (r: bool)
    ensures
        r == spec_has_ext(name@),
{
    match last_index_of(name, '.') {
        Option::Some(i) => i > 0,
        Option::None => false,
    }
}

/// The extension of a file name, or empty.
pub fn ext_of_name(name: &str) -> (r: String)
    ensures
        r@ == spec_ext_of_name(name@),
{
    let n = name.unicode_len();
    match last_index_of(name, '.') {
        Option::Some(i) => {
            if i > 0 {
                name.substring_char(i + 1, n).to_owned()
            } else {
                String::new()
            }
        },
        Option::None => String::new(),
    }
}

/// The stem of a file name, or all of it.
pub fn stem_of_name(name: &str) -> (r: String)
    ensures
        r@ == spec_stem_of_name(name@),
{
    match last_index_of(name, '.') {
        Option::Some(i) => {
            if i > 0 {
                name.substring_char(0, i).to_owned()
            } else {
                name.to_owned()
            }
        },
        Option::None => name.to_owned(),
    }
}

/// The extension of the file name of a path, or empty.
pub fn extension_of(p: &str) -> (r: String)
    ensures
        r@ == spec_ext_of(p@),
{
    let name = file_name_of(p);
    ext_of_name(name.as_str())
}

/// Joins a destination directory and a file name with a single slash.
pub fn join_path(dest: &str, name: &str) -> (r: String)
    ensures
        r@ == spec_join(dest@, name@),
{
    let n = dest.unicode_len();
    if n == 0 {
        return name.to_owned();
    }
    let mut s = dest.to_owned();
    if dest.get_char(n - 1) != '/' {
        s.append("/");
    }
    s.append(name);
    s
}

/// One decimal digit as a string.
fn digit_str(d: u32) -> (r: &'static str)
    requires
        d < 10,
    ensures
        r@ == seq![spec_digit(d as nat)],
{
    proof {
        reveal_strlit("0");
        reveal_strlit("1");
        reveal_strlit("2");
        reveal_strlit("3");
        reveal_strlit("4");
        reveal_strlit("5");
        reveal_strlit("6");
        reveal_strlit("7");
        reveal_strlit("8");
        reveal_strlit("9");
    }
    match d {
        0 => "0",
        1 => "1",
        2 => "2",
        3 => "3",
        4 => "4",
        5 => "5",
        6 => "6",
        7 => "7",
        8 => "8",
        _ => "9",
    }
}

/// The decimal spelling of a number.
pub fn u32_dec(n: u32) -> (r: String)
    ensures
        r@ == spec_dec(n as nat),
    decreases n,
{
    if n < 10 {
        digit_str(n).to_owned()
    } else {
        proof {
            assert(n / 10 < n) by (nonlinear_arith)
                requires
                    n >= 10,
            ;
        }
        let mut s = u32_dec(n / 10);
        s.append(digit_str(n % 10));
        proof {
            assert(s@ =~= spec_dec((n / 10) as nat).push(spec_digit((n % 10) as nat)));
        }
        s
    }
}

/// The effective output extension of a run: an explicit target format
/// wins; else a naming expression's extension decides, which must
/// name a known format; else each file keeps its own.
pub open spec fn spec_effective_ext(
    name_expr: Option<Seq<char>>,
    fmt: Option<Seq<char>>,
) -> Result<Option<Seq<char>>, ResolveError> {
    match fmt {
        Option::Some(f) => match spec_format_from_ext(f) {
            Option::Some(ff) => Result::Ok(Option::Some(spec_primary_ext(ff))),
            Option::None => Result::Err(ResolveError::BadFormat),
        },
        Option::None => match name_expr {
            Option::Some(e) => {
                if spec_has_ext(e) {
                    match spec_format_from_ext(spec_ext_of_name(e)) {
                        Option::Some(ff) => Result::Ok(Option::Some(spec_primary_ext(ff))),
                        Option::None => Result::Err(ResolveError::BadNameExpression),
                    }
                } else {
                    Result::Ok(Option::None)
                }
            },
            Option::None => Result::Ok(Option::None),
        },
    }
}

/// The output file name of the input at index `i`: the naming
/// expression's stem with a `_i` suffix, or the file's own stem
/// (`image` when the path has no file name); then the effective
/// extension, or the file's own, which it must then have.
pub open spec fn spec_out_name(
    file: Seq<char>,
    i: int,
    name_expr: Option<Seq<char>>,
    eff: Option<Seq<char>>,
) -> Result<Seq<char>, ResolveError> {
    let fname = spec_file_name(file);
    let base = match name_expr {
        Option::Some(e) => spec_stem_of_name(e) + "_"@ + spec_dec(i as nat),
        Option::None => if fname.len() == 0 {
            "image"@
        } else {
            spec_stem_of_name(fname)
        },
    };
    match eff {
        Option::Some(x) => Result::Ok(base + "."@ + x),
        Option::None => if spec_has_ext(fname) {
            Result::Ok(base + "."@ + spec_ext_of_name(fname))
        } else {
            Result::Err(ResolveError::MissingExtension)
        },
    }
}

/// The resolved output paths of all inputs, in input order; the first
/// per-file error wins.
pub open spec fn spec_out_paths(
    files: Seq<Seq<char>>,
    dest: Seq<char>,
    name_expr: Option<Seq<char>>,
    eff: Option<Seq<char>>,
) -> Result<Seq<Seq<char>>, ResolveError>
    decreases files.len(),
{
    if files.len() == 0 {
        Result::Ok(Seq::empty())
    } else {
        match spec_out_paths(files.drop_last(), dest, name_expr, eff) {
            Result::Ok(rest) => match spec_out_name(
                files.last(),
                files.len() - 1,
                name_expr,
                eff,
            ) {
                Result::Ok(nm) => Result::Ok(rest.push(spec_join(dest, nm))),
                Result::Err(e) => Result::Err(e),
            },
            Result::Err(e) => Result::Err(e),
        }
    }
}

/// Whether any output path occurs twice.
pub open spec fn spec_has_dup(outs: Seq<Seq<char>>) -> bool {
    exists|i: int, j: int| 0 <= i < j < outs.len() && outs[i] == outs[j]
}

/// The views of a list of strings.
pub open spec fn spec_views(v: Seq<String>) -> Seq<Seq<char>> {
    v.map_values(|s: String| s@)
}

/// The whole resolution, start to end: destination validity, the
/// effective extension, one output per input, and the collision
/// check.
pub open spec fn spec_resolve(
    files: Seq<Seq<char>>,
    dest: Seq<char>,
    name_expr: Option<Seq<char>>,
    fmt: Option<Seq<char>>,
    status: DirStatus,
) -> Result<Seq<Seq<char>>, ResolveError> {
    if status is File {
        Result::Err(ResolveError::DestinationIsFile)
    } else if !(status is Directory) {
        Result::Err(ResolveError::DestinationMissing)
    } else {
        match spec_effective_ext(name_expr, fmt) {
            Result::Err(e) => Result::Err(e),
            Result::Ok(eff) => match spec_out_paths(files, dest, name_expr, eff) {
                Result::Err(e) => Result::Err(e),
                Result::Ok(outs) => if spec_has_dup(outs) {
                    Result::Err(ResolveError::DuplicateOutput)
                } else {
                    Result::Ok(outs)
                },
            },
        }
    }
}

/// One resolution step: extending the inputs by one extends the
/// outputs by that input's resolved path, or surfaces its error.
pub proof fn lemma_out_paths_take_step(
    files: Seq<Seq<char>>,
    dest: Seq<char>,
    name_expr: Option<Seq<char>>,
    eff: Option<Seq<char>>,
    i: int,
)
    requires
        0 <= i < files.len(),
    ensures
        spec_out_paths(files.take(i + 1), dest, name_expr, eff) == (match spec_out_paths(
            files.take(i),
            dest,
            name_expr,
            eff,
        ) {
            Result::Ok(rest) => match spec_out_name(files[i], i, name_expr, eff) {
                Result::Ok(nm) => Result::Ok(rest.push(spec_join(dest, nm))),
                Result::Err(e) => Result::<Seq<Seq<char>>, ResolveError>::Err(e),
            },
            Result::Err(e) => Result::Err(e),
        }),
{
    assert(files.take(i + 1).drop_last() =~= files.take(i));
    assert(files.take(i + 1).last() == files[i]);
    assert(files.take(i + 1).len() == i + 1);
}

/// Error propagation: the first input whose name cannot be resolved
/// decides the whole resolution's error.
pub proof fn lemma_out_paths_first_error(
    files: Seq<Seq<char>>,
    dest: Seq<char>,
    name_expr: Option<Seq<char>>,
    eff: Option<Seq<char>>,
    i: int,
    e: ResolveError,
)
    requires
        0 <= i < files.len(),
        spec_out_paths(files.take(i), dest, name_expr, eff) is Ok,
        spec_out_name(files[i], i, name_expr, eff) == Result::<Seq<char>, ResolveError>::Err(e),
    ensures
        spec_out_paths(files, dest, name_expr, eff) == Result::<Seq<Seq<char>>, ResolveError>::Err(
            e,
        ),
    decreases files.len(),
{
    lemma_out_paths_take_step(files, dest, name_expr, eff, i);
    if i + 1 == files.len() {
        assert(files.take(i + 1) =~= files);
    } else {
        assert(spec_out_paths(files.take(i + 1), dest, name_expr, eff) == Result::<
            Seq<Seq<char>>,
            ResolveError,
        >::Err(e));
        lemma_out_paths_prefix_error(files, dest, name_expr, eff, i + 1, e);
    }
}

/// Error propagation: a prefix that resolves to an error forces the
/// whole resolution to that error.
pub proof fn lemma_out_paths_prefix_error(
    files: Seq<Seq<char>>,
    dest: Seq<char>,
    name_expr: Option<Seq<char>>,
    eff: Option<Seq<char>>,
    k: int,
    e: ResolveError,
)
    requires
        0 <= k <= files.len(),
        spec_out_paths(files.take(k), dest, name_expr, eff) == Result::<
            Seq<Seq<char>>,
            ResolveError,
        >::Err(e),
    ensures
        spec_out_paths(files, dest, name_expr, eff) == Result::<Seq<Seq<char>>, ResolveError>::Err(
            e,
        ),
    decreases files.len() - k,
{
    if k == files.len() {
        assert(files.take(k) =~= files);
    } else {
        lemma_out_paths_take_step(files, dest, name_expr, eff, k);
        lemma_out_paths_prefix_error(files, dest, name_expr, eff, k + 1, e);
    }
}

/// The view of an optional borrowed string.
pub open spec fn spec_opt_view(o: Option<&str>) -> Option<Seq<char>> {
    match o {
        Option::Some(s) => Option::Some(s@),
        Option::None => Option::None,
    }
}

/// Whether two of the output paths collide.
fn has_duplicate(outs: &Vec<String>) -> (r: bool)
    ensures
        r == spec_has_dup(spec_views(outs@)),
{
    let n = outs.len();
    let mut i: usize = 0;
    while i < n
        invariant
            i <= n,
            n == outs@.len(),
            forall|a: int, b: int|
                0 <= a < b < outs@.len() && a < i ==> spec_views(outs@)[a] != spec_views(
                    outs@,
                )[b],
        decreases n - i,
    {
        let mut j: usize = i + 1;
        while j < n
            invariant
                i < j <= n || (i + 1 == j && j > n),
                i < n,
                n == outs@.len(),
                forall|a: int, b: int|
                    0 <= a < b < outs@.len() && a < i ==> spec_views(outs@)[a] != spec_views(
                        outs@,
                    )[b],
                forall|b: int| i < b < j ==> spec_views(outs@)[i as int] != spec_views(outs@)[b],
            decreases n - j,
        {
            if outs[i] == outs[j] {
                assert(spec_views(outs@)[i as int] == spec_views(outs@)[j as int]);
                return true;
            }
            j = j + 1;
        }
        i = i + 1;
    }
    false
}

/// Resolves every input path to an output path: same length, same
/// order, collision-free, or the run's configuration error.
pub fn create_paths(
    paths: &Vec<String>,
    destination: &str,
    name_expr: Option<&str>,
    image_format: Option<&str>,
    dest_status: DirStatus,
) -> (r: Result<Vec<String>, ResolveError>)
    requires
        paths@.len() <= 0xffff_ffff,
    ensures
        match r {
            Result::Ok(v) => v@.len() == paths@.len() && spec_resolve(
                spec_views(paths@),
                destination@,
                spec_opt_view(name_expr),
                spec_opt_view(image_format),
                dest_status,
            ) == Result::<Seq<Seq<char>>, ResolveError>::Ok(spec_views(v@)),
            Result::Err(e) => spec_resolve(
                spec_views(paths@),
                destination@,
                spec_opt_view(name_expr),
                spec_opt_view(image_format),
                dest_status,
            ) == Result::<Seq<Seq<char>>, ResolveError>::Err(e),
        },
{
    if matches!(dest_status, DirStatus::File) {
        return Err(ResolveError::DestinationIsFile);
    }
    if !matches!(dest_status, DirStatus::Directory) {
        return Err(ResolveError::DestinationMissing);
    }
    let ghost exprv = spec_opt_view(name_expr);
    let ghost fmtv = spec_opt_view(image_format);
    let eff: Option<String> = match image_format {
        Option::Some(f) => match ImageFormat::from_extension(f) {
            Option::Some(ff) => Some(ff.primary_extension().to_owned()),
            Option::None => {
                return Err(ResolveError::BadFormat);
            },
        },
        Option::None => match name_expr {
            Option::Some(e) => {
                if has_ext_name(e) {
                    let ee = ext_of_name(e);
                    match ImageFormat::from_extension(ee.as_str()) {
                        Option::Some(ff) => Some(ff.primary_extension().to_owned()),
                        Option::None => {
                            return Err(ResolveError::BadNameExpression);
                        },
                    }
                } else {
                    None
                }
            },
            Option::None => None,
        },
    };
    let ghost effv = match &eff {
        Option::Some(x) => Option::Some(x@),
        Option::None => Option::<Seq<char>>::None,
    };
    proof {
        assert(spec_effective_ext(exprv, fmtv) == Result::<
            Option<Seq<char>>,
            ResolveError,
        >::Ok(effv));
    }
    let n = paths.len();
    let mut outs: Vec<String> = Vec::new();
    let mut i: usize = 0;
    proof {
        assert(spec_views(paths@).take(0) =~= Seq::<Seq<char>>::empty());
        assert(spec_views(outs@) =~= Seq::<Seq<char>>::empty());
    }
    while i < n
        invariant
            i <= n,
            n == paths@.len(),
            n <= 0xffff_ffff,
            outs@.len() == i,
            exprv == spec_opt_view(name_expr),
            fmtv == spec_opt_view(image_format),
            dest_status is Directory,
            spec_effective_ext(exprv, fmtv) == Result::<Option<Seq<char>>, ResolveError>::Ok(effv),
            effv == (match &eff {
                Option::Some(x) => Option::Some(x@),
                Option::None => Option::<Seq<char>>::None,
            }),
            spec_out_paths(spec_views(paths@).take(i as int), destination@, exprv, effv)
                == Result::<Seq<Seq<char>>, ResolveError>::Ok(spec_views(outs@)),
        decreases n - i,
    {
        let file: &String = &paths[i];
        let ghost fv = spec_views(paths@);
        proof {
            assert(fv[i as int] == file@);
        }
        let fname = file_name_of(file.as_str());
        let ghost fnamev = spec_file_name(file@);
        let base: String = match name_expr {
            Option::Some(e) => {
                let mut b = stem_of_name(e);
                b.append("_");
                let d = u32_dec(i as u32);
                b.append(d.as_str());
                proof {
                    assert(b@ =~= spec_stem_of_name(e@) + "_"@ + spec_dec(i as nat));
                }
                b
            },
            Option::None => {
                if fname.unicode_len() == 0 {
                    "image".to_owned()
                } else {
                    stem_of_name(fname.as_str())
                }
            },
        };
        let ghost basev = base@;
        proof {
            assert(basev == (match exprv {
                Option::Some(e) => spec_stem_of_name(e) + "_"@ + spec_dec(i as nat),
                Option::None => if fnamev.len() == 0 {
                    "image"@
                } else {
                    spec_stem_of_name(fnamev)
                },
            }));
        }
        let ext: String = match &eff {
            Option::Some(x) => x.clone(),
            Option::None => {
                if has_ext_name(fname.as_str()) {
                    ext_of_name(fname.as_str())
                } else {
                    proof {
                        assert(spec_out_name(file@, i as int, exprv, effv) == Result::<
                            Seq<char>,
                            ResolveError,
                        >::Err(ResolveError::MissingExtension));
                        lemma_out_paths_first_error(
                            fv,
                            destination@,
                            exprv,
                            effv,
                            i as int,
                            ResolveError::MissingExtension,
                        );
                    }
                    return Err(ResolveError::MissingExtension);
                }
            },
        };
        let mut nm = base;
        nm.append(".");
        nm.append(ext.as_str());
        let full = join_path(destination, nm.as_str());
        proof {
            let nmv = (match effv {
                Option::Some(x) => basev + "."@ + x,
                Option::None => basev + "."@ + spec_ext_of_name(fnamev),
            });
            assert(nm@ =~= nmv);
            assert(spec_out_name(file@, i as int, exprv, effv) == Result::<
                Seq<char>,
                ResolveError,
            >::Ok(nmv));
            assert(full@ == spec_join(destination@, nm@));
            lemma_out_paths_take_step(fv, destination@, exprv, effv, i as int);
            assert(spec_views(outs@.push(full)) =~= spec_views(outs@).push(full@));
        }
        outs.push(full);
        i = i + 1;
    }
    proof {
        assert(spec_views(paths@).take(n as int) =~= spec_views(paths@));
    }
    if has_duplicate(&outs) {
        return Err(ResolveError::DuplicateOutput);
    }
    Ok(outs)
}

/// Determinism of resolution: the resolver's outcome is a function of
/// its arguments and of nothing else, so running it twice on the same
/// inputs yields the same output paths in the same order.
pub proof fn lemma_resolve_deterministic(
    files: Seq<Seq<char>>,
    dest: Seq<char>,
    name_expr: Option<Seq<char>>,
    fmt: Option<Seq<char>>,
    status: DirStatus,
    first: Seq<Seq<char>>,
    second: Seq<Seq<char>>,
)
    requires
        spec_resolve(files, dest, name_expr, fmt, status) == Result::<
            Seq<Seq<char>>,
            ResolveError,
        >::Ok(first),
        spec_resolve(files, dest, name_expr, fmt, status) == Result::<
            Seq<Seq<char>>,
            ResolveError,
        >::Ok(second),
    ensures
        first == second,
{
}

/// Collision safety: a successful resolution never contains the same
/// output path twice; two inputs that would collide are answered with
/// an error instead.
pub proof fn lemma_resolve_collision_safe(
    files: Seq<Seq<char>>,
    dest: Seq<char>,
    name_expr: Option<Seq<char>>,
    fmt: Option<Seq<char>>,
    status: DirStatus,
    outs: Seq<Seq<char>>,
)
    requires
        spec_resolve(files, dest, name_expr, fmt, status) == Result::<
            Seq<Seq<char>>,
            ResolveError,
        >::Ok(outs),
    ensures
        forall|i: int, j: int| 0 <= i < j < outs.len() ==> outs[i] != outs[j],
{
    assert(!spec_has_dup(outs));
}

/// Order preservation: a successful resolution has exactly one output
/// per input, and the output at each position is determined by the
/// input at the same position.
pub proof fn lemma_resolve_order_preserving(
    files: Seq<Seq<char>>,
    dest: Seq<char>,
    name_expr: Option<Seq<char>>,
    eff: Option<Seq<char>>,
    outs: Seq<Seq<char>>,
)
    requires
        spec_out_paths(files, dest, name_expr, eff) == Result::<
            Seq<Seq<char>>,
            ResolveError,
        >::Ok(outs),
    ensures
        outs.len() == files.len(),
        forall|i: int|
            0 <= i < files.len() ==> #[trigger] outs[i] == spec_join(
                dest,
                spec_out_name(files[i], i, name_expr, eff)->Ok_0,
            ),
    decreases files.len(),
{
    if files.len() > 0 {
        let rest = spec_out_paths(files.drop_last(), dest, name_expr, eff);
        lemma_resolve_order_preserving(
            files.drop_last(),
            dest,
            name_expr,
            eff,
            rest->Ok_0,
        );
        assert forall|i: int| 0 <= i < files.len() implies #[trigger] outs[i] == spec_join(
            dest,
            spec_out_name(files[i], i, name_expr, eff)->Ok_0,
        ) by {
            if i < files.len() - 1 {
                assert(files.drop_last()[i] == files[i]);
            }
        }
    }
}

} // verus!
