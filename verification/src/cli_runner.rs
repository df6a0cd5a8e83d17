//! Configuration of the `aelm` CLI runner, and the decisions taken on what
//! the CLI answers.
//!
//! The process itself is spawned by the application around this library; the
//! library decides the argument vector, classifies the exit, and recovers the
//! JSON envelope that the CLI prints even when it fails.
use vstd::prelude::*;
use vstd::utf8::{decode_utf8, encode_utf8, valid_utf8};

use crate::error::CliError;
use crate::text::{is_white_space, lemma_texts_push, owned, texts, unicode_white_space};

verus! {

/// Configuration for locating and invoking the `aelm` binary.
#[derive(Debug, Clone)]
pub struct AelmCli {
    binary_path: String,
    library_dirs: Vec<String>,
    working_dir: Option<String>,
}

/// The views of a slice of string slices.
pub open spec fn str_texts(v: Seq<&str>) -> Seq<Seq<char>> {
    v.map_values(|x: &str| x@)
}

/// The `-L <dir>` flag pairs for the given library directories, in order.
pub open spec fn library_flags(dirs: Seq<Seq<char>>) -> Seq<Seq<char>> {
    Seq::new(2 * dirs.len(), |i: int| if i % 2 == 0 { "-L"@ } else { dirs[i / 2] })
}

impl AelmCli {
    /// The configured path of the binary.
    pub closed spec fn binary(&self) -> Seq<char> {
        self.binary_path@
    }

    /// The configured library directories.
    pub closed spec fn libraries(&self) -> Seq<Seq<char>> {
        texts(self.library_dirs@)
    }

    /// The configured working directory.
    pub closed spec fn workdir(&self) -> Option<Seq<char>> {
        match self.working_dir {
            Some(d) => Some(d@),
            None => None,
        }
    }

    /// Create a runner. `binary_path` may be a bare name (`"aelm"`, resolved via
    /// `PATH`) or an absolute path.
    pub fn new(binary_path: String, library_dirs: Vec<String>, working_dir: Option<String>) -> (r: Self)
        ensures
            r.binary() == binary_path@,
            r.libraries() == texts(library_dirs@),
            r.workdir() == (match working_dir {
                Some(d) => Some(d@),
                None => None,
            }),
    {
        AelmCli { binary_path, library_dirs, working_dir }
    }

    /// The argument vector `base` followed by one `-L <dir>` pair for each
    /// configured library directory.
    pub fn with_library_flags(&self, base: &[&str]) -> (args: Vec<String>)
        ensures
            texts(args@) == str_texts(base@) + library_flags(self.libraries()),
    {
        let mut args: Vec<String> = Vec::new();
        let n = base.len();
        let mut i: usize = 0;
        while i < n
            invariant
                n == base@.len(),
                0 <= i <= n,
                texts(args@) == str_texts(base@).take(i as int),
            decreases n - i,
        {
            let ghost before = args@;
            let t = owned(base[i]);
            args.push(t);
            proof {
                lemma_texts_push(before, t);
            }
            assert(texts(args@) =~= str_texts(base@).take(i + 1));
            i = i + 1;
        }
        assert(str_texts(base@).take(n as int) =~= str_texts(base@));
        let m = self.library_dirs.len();
        let mut j: usize = 0;
        while j < m
            invariant
                m == self.library_dirs@.len(),
                0 <= j <= m,
                texts(args@) == str_texts(base@) + library_flags(self.libraries()).take(2 * j),
            decreases m - j,
        {
            let ghost v0 = args@;
            let flag = owned("-L");
            args.push(flag);
            let ghost v1 = args@;
            let dir = self.library_dirs[j].clone();
            args.push(dir);
            proof {
                lemma_texts_push(v0, flag);
                lemma_texts_push(v1, dir);
            }
            assert(texts(args@) =~= str_texts(base@) + library_flags(self.libraries()).take(2 * j + 2));
            j = j + 1;
        }
        assert(library_flags(self.libraries()).take(2 * m) =~= library_flags(self.libraries()));
        args
    }

    /// The configured binary path (for diagnostics / startup logging).
    pub fn binary_path(&self) -> (r: &String)
        ensures
            r@ == self.binary(),
    {
        &self.binary_path
    }

    /// The configured library directories.
    pub fn library_dirs(&self) -> (r: &Vec<String>)
        ensures
            texts(r@) == self.libraries(),
    {
        &self.library_dirs
    }

    /// The configured working directory, if any.
    pub fn working_dir(&self) -> (r: Option<&String>)
        ensures
            match r {
                Some(d) => self.workdir() == Some(d@),
                None => self.workdir() is None,
            },
    {
        match &self.working_dir {
            Some(d) => Some(d),
            None => None,
        }
    }
}

/// What `String::from_utf8_lossy` makes of a byte sequence.
pub uninterp spec fn utf8_lossy(bytes: Seq<u8>) -> Seq<char>;

/// Calls `String::from_utf8_lossy`. The contract names its result, and states
/// what its documentation promises: valid UTF-8 is decoded unchanged.
#[verifier::external_body]
pub(crate) fn lossy_text(bytes: &[u8]) -> (r: String)
    ensures
        r@ == utf8_lossy(bytes@),
        valid_utf8(bytes@) ==> r@ == decode_utf8(bytes@),
{
    String::from_utf8_lossy(bytes).into_owned()
}

/// The text of a JSON envelope's bytes, as `run_json` reads it: decoded
/// lossily, so that stray bytes cannot stop the parse.
pub fn envelope_text(bytes: &[u8]) -> (r: String)
    ensures
        r@ == utf8_lossy(bytes@),
        valid_utf8(bytes@) ==> r@ == decode_utf8(bytes@),
{
    lossy_text(bytes)
}

/// Whether the text is empty once surrounding white space is trimmed, i.e.
/// every character is white space.
pub open spec fn is_blank(s: Seq<char>) -> bool {
    forall|i: int| 0 <= i < s.len() ==> unicode_white_space(#[trigger] s[i])
}

/// Whether every character of `s` is white space.
pub fn blank(s: &str) -> (r: bool)
    ensures
        r == is_blank(s@),
{
    let mut all = true;
    for c in it: s.chars()
        invariant
            it.seq() == s@,
            all == (forall|i: int| 0 <= i < it.index() ==> unicode_white_space(#[trigger] s@[i])),
    {
        if !is_white_space(c) {
            all = false;
        }
    }
    all
}

/// What a finished `aelm` process means: its stdout when it succeeded, or a
/// [`CliError::NonZeroExit`] with the exit code (`-1` when the process was
/// ended by a signal) and its lossily decoded output.
pub open spec fn exit_result_is(
    success: bool,
    code: Option<i32>,
    stdout: Seq<u8>,
    stderr: Seq<u8>,
    r: Result<Vec<u8>, CliError>,
) -> bool {
    if success {
        r matches Ok(out) && out@ == stdout
    } else {
        r matches Err(CliError::NonZeroExit { code: c, stdout: o, stderr: e }) && c == (match code {
            Some(k) => k,
            None => -1i32,
        }) && o@ == utf8_lossy(stdout) && e@ == utf8_lossy(stderr)
    }
}

/// Classify a finished `aelm` process: success hands back stdout, any other
/// exit becomes [`CliError::NonZeroExit`] so that the caller can surface
/// stderr through the MCP `isError` flag.
pub fn exit_outcome(success: bool, code: Option<i32>, stdout: Vec<u8>, stderr: Vec<u8>) -> (r: Result<
    Vec<u8>,
    CliError,
>)
    ensures
        exit_result_is(success, code, stdout@, stderr@, r),
{
    if success {
        Ok(stdout)
    } else {
        let c = match code {
            Some(k) => k,
            None => -1i32,
        };
        Err(
            CliError::NonZeroExit {
                code: c,
                stdout: lossy_text(stdout.as_slice()),
                stderr: lossy_text(stderr.as_slice()),
            },
        )
    }
}

/// What [`recover_envelope`] makes of a run: a non-zero exit whose stdout is
/// not blank still delivers that stdout (the CLI prints its JSON envelope
/// even on DRC failure); everything else passes through.
pub open spec fn recovered_is(run: Result<Vec<u8>, CliError>, r: Result<Vec<u8>, CliError>) -> bool {
    match run {
        Ok(b) => r matches Ok(x) && x@ == b@,
        Err(CliError::NonZeroExit { stdout, .. }) if !is_blank(stdout@) => r matches Ok(x) && x@
            == encode_utf8(stdout@),
        Err(e) => r == Err::<Vec<u8>, CliError>(e),
    }
}

/// Recover the JSON envelope from a run: keep the bytes of a success, and
/// the stdout of a non-zero exit when it holds more than white space, so the
/// model sees diagnostics rather than an opaque error.
pub fn recover_envelope(run: Result<Vec<u8>, CliError>) -> (r: Result<Vec<u8>, CliError>)
    ensures
        recovered_is(run, r),
{
    match run {
        Ok(b) => Ok(b),
        Err(CliError::NonZeroExit { code, stdout, stderr }) => {
            if !blank(stdout.as_str()) {
                Ok(vstd::slice::slice_to_vec(stdout.as_str().as_bytes()))
            } else {
                Err(CliError::NonZeroExit { code, stdout, stderr })
            }
        },
        Err(e) => Err(e),
    }
}

} // verus!
