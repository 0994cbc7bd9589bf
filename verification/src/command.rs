use vstd::prelude::*;

verus! {

/// A process for the caller to run: the program, its arguments, and the
/// variables to add to its environment.
#[derive(Debug)]
pub struct NixCommand {
    pub program: String,
    pub args: Vec<String>,
    pub env: Vec<(String, String)>,
}

/// The mathematical value of a [`NixCommand`].
pub struct NixProcess {
    pub program: Seq<char>,
    pub args: Seq<Seq<char>>,
    pub env: Seq<(Seq<char>, Seq<char>)>,
}

impl View for NixCommand {
    type V = NixProcess;

    open spec fn view(&self) -> NixProcess {
        NixProcess {
            program: self.program@,
            args: self.args.deep_view(),
            env: self.env.deep_view(),
        }
    }
}

/// What a finished process reported.
///
/// `status` is the text by which the exit status displays itself (such as
/// "exit status: 1"); `success` tells whether it is a success.
#[derive(Debug)]
pub struct CommandOutput {
    pub success: bool,
    pub status: String,
    pub stdout: Vec<u8>,
    pub stderr: Vec<u8>,
}

/// A finished process together with what its standard output decodes to as
/// JSON: `json` is the decoder's result on `output.stdout`, with the text of
/// its error when the output does not decode.
#[derive(Debug)]
pub struct Finished<T> {
    pub output: CommandOutput,
    pub json: Result<T, String>,
}

/// The mathematical value of a result whose error is a text.
pub open spec fn result_view<T: DeepView>(r: Result<T, String>) -> Result<T::V, Seq<char>> {
    match r {
        Ok(t) => Ok(t.deep_view()),
        Err(e) => Err(e@),
    }
}

} // verus!
