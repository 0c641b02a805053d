use vstd::prelude::*;
use vstd::utf8::{encode_utf8, valid_utf8};

use crate::error::{ConfigError, Error};
use crate::bytes::{copy_bytes, push_bytes};
use crate::utf8::decode;

verus! {

/// A compile request. Paths are raw OS path bytes.
#[derive(Debug)]
pub struct Args {
    /// Target language of the generated code, selected by `--<lang>`.
    pub lang: String,
    /// Schema files to compile, in order; must not be empty.
    pub inputs: Vec<Vec<u8>>,
    /// Directory the generated code goes to (`-o`); must not be empty.
    pub out_dir: Vec<u8>,
    /// Directories searched for included schemas (`-I`), in order.
    pub includes: Vec<Vec<u8>>,
}

/// The mathematical value of an [`Args`].
pub struct ArgsModel {
    pub lang: Seq<char>,
    pub inputs: Seq<Seq<u8>>,
    pub out_dir: Seq<u8>,
    pub includes: Seq<Seq<u8>>,
}

/// The byte sequences held by a list of paths.
pub open spec fn paths_view(v: Seq<Vec<u8>>) -> Seq<Seq<u8>> {
    v.map_values(|p: Vec<u8>| p@)
}

impl View for Args {
    type V = ArgsModel;

    open spec fn view(&self) -> ArgsModel {
        ArgsModel {
            lang: self.lang@,
            inputs: paths_view(self.inputs@),
            out_dir: self.out_dir@,
            includes: paths_view(self.includes@),
        }
    }
}

/// `--<lang>`, the token selecting the generator backend.
pub open spec fn lang_flag(lang: Seq<char>) -> Seq<u8> {
    seq![45u8, 45u8] + encode_utf8(lang)
}

/// `-o`.
pub open spec fn out_flag() -> Seq<u8> {
    seq![45u8, 111u8]
}

/// `-I<dir>`: the flag and the directory in one token.
pub open spec fn include_flag(dir: Seq<u8>) -> Seq<u8> {
    seq![45u8, 73u8] + dir
}

/// The argument vector of a complete request:
/// `--<lang> -o <out_dir> <inputs>... -I<include>...`.
pub open spec fn command_line(a: ArgsModel) -> Seq<Seq<u8>> {
    seq![lang_flag(a.lang), out_flag(), a.out_dir] + a.inputs + a.includes.map_values(
        |d: Seq<u8>| include_flag(d),
    )
}

/// The first missing piece of a request, checked in the order output directory,
/// language, inputs.
pub open spec fn config_error(a: ArgsModel) -> Option<ConfigError> {
    if a.out_dir.len() == 0 {
        Some(ConfigError::OutDirEmpty)
    } else if a.lang.len() == 0 {
        Some(ConfigError::LangEmpty)
    } else if a.inputs.len() == 0 {
        Some(ConfigError::InputsEmpty)
    } else {
        None
    }
}

/// What building the argument vector of a request gives.
pub open spec fn command_line_outcome(a: ArgsModel) -> Result<Seq<Seq<u8>>, Error> {
    match config_error(a) {
        Some(e) => Err(Error::Config(e)),
        None => if !valid_utf8(a.out_dir) {
            Err(Error::Encoding)
        } else {
            Ok(command_line(a))
        },
    }
}

impl Default for Args {
    /// Language `rust`; everything else empty.
    fn default() -> (r: Args)
        ensures
            r.lang@ == seq!['r', 'u', 's', 't'],
            r.inputs@.len() == 0,
            r.out_dir@.len() == 0,
            r.includes@.len() == 0,
    {
        let lang = String::from_str("rust");
        proof {
            reveal_strlit("rust");
        }
        assert(lang@ =~= seq!['r', 'u', 's', 't']);
        Args { lang, inputs: Vec::new(), out_dir: Vec::new(), includes: Vec::new() }
    }
}

impl Args {
    /// The argument vector for the compiler.
    ///
    /// Fails with a configuration error when the output directory, the language or
    /// the input list is empty (checked in that order), then with an encoding error
    /// when the output directory is not UTF-8. Input and include paths are passed as
    /// raw bytes.
    pub fn command_line(&self) -> (r: Result<Vec<Vec<u8>>, Error>)
        ensures
            match r {
                Ok(v) => command_line_outcome(self@) == Ok::<Seq<Seq<u8>>, Error>(
                    paths_view(v@),
                ),
                Err(e) => command_line_outcome(self@) == Err::<Seq<Seq<u8>>, Error>(e),
            },
    {
        if self.out_dir.len() == 0 {
            return Err(Error::Config(ConfigError::OutDirEmpty));
        }
        if self.lang.as_str().is_empty() {
            return Err(Error::Config(ConfigError::LangEmpty));
        }
        if self.inputs.len() == 0 {
            return Err(Error::Config(ConfigError::InputsEmpty));
        }
        let checked = decode(copy_bytes(&self.out_dir));
        if checked.is_none() {
            return Err(Error::Encoding);
        }
        let mut out: Vec<Vec<u8>> = Vec::new();

        let mut lang_token: Vec<u8> = vec![45u8, 45u8];
        push_bytes(&mut lang_token, self.lang.as_str().as_bytes());
        assert(lang_token@ =~= lang_flag(self.lang@));
        out.push(lang_token);
        let o_token: Vec<u8> = vec![45u8, 111u8];
        assert(o_token@ =~= out_flag());
        out.push(o_token);
        out.push(copy_bytes(&self.out_dir));
        let ghost head = seq![lang_flag(self.lang@), out_flag(), self.out_dir@];
        assert(paths_view(out@) =~= head);

        let mut i: usize = 0;
        while i < self.inputs.len()
            invariant
                i <= self.inputs@.len(),
                paths_view(out@) =~= head + paths_view(self.inputs@).subrange(0, i as int),
            decreases self.inputs@.len() - i,
        {
            let ghost prev = out@;
            let path = copy_bytes(&self.inputs[i]);
            out.push(path);
            assert(paths_view(out@) =~= paths_view(prev).push(self.inputs@[i as int]@));
            i = i + 1;
            assert(paths_view(out@) =~= head + paths_view(self.inputs@).subrange(0, i as int));
        }
        let ghost mid = head + paths_view(self.inputs@);
        assert(paths_view(out@) =~= mid);

        let ghost incl = paths_view(self.includes@).map_values(|d: Seq<u8>| include_flag(d));
        let mut j: usize = 0;
        while j < self.includes.len()
            invariant
                j <= self.includes@.len(),
                incl == paths_view(self.includes@).map_values(|d: Seq<u8>| include_flag(d)),
                paths_view(out@) =~= mid + incl.subrange(0, j as int),
            decreases self.includes@.len() - j,
        {
            let mut token: Vec<u8> = vec![45u8, 73u8];
            push_bytes(&mut token, self.includes[j].as_slice());
            assert(token@ =~= include_flag(self.includes@[j as int]@));
            assert(paths_view(self.includes@)[j as int] == self.includes@[j as int]@);
            assert(incl[j as int] == token@);
            let ghost prev = out@;
            out.push(token);
            assert(paths_view(out@) =~= paths_view(prev).push(incl[j as int]));
            j = j + 1;
            assert(paths_view(out@) =~= mid + incl.subrange(0, j as int));
        }
        assert(paths_view(out@) =~= command_line(self@));
        Ok(out)
    }
}

} // verus!

verus! {

/// A request whose output directory is empty is refused as incomplete, whatever
/// its other fields hold.
pub proof fn lemma_empty_out_dir_refused(a: ArgsModel)
    requires
        a.out_dir.len() == 0,
    ensures
        command_line_outcome(a) == Err::<Seq<Seq<u8>>, Error>(
            Error::Config(ConfigError::OutDirEmpty),
        ),
{
}

/// A request whose language is empty is refused as incomplete.
pub proof fn lemma_empty_lang_refused(a: ArgsModel)
    requires
        a.lang.len() == 0,
    ensures
        command_line_outcome(a) matches Err(Error::Config(_)),
{
}

/// A request without input files is refused as incomplete.
pub proof fn lemma_no_inputs_refused(a: ArgsModel)
    requires
        a.inputs.len() == 0,
    ensures
        command_line_outcome(a) matches Err(Error::Config(_)),
{
}

} // verus!
