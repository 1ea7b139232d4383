//! What came of running another program.

use vstd::prelude::*;

verus! {

/// What a program left when it ended.
#[derive(Debug)]
pub struct CommandOutput {
    /// Whether it ended with success.
    pub success: bool,
    /// Its exit code, unless a signal ended it.
    pub code: Option<i32>,
    /// How the way it ended is worded.
    pub status: String,
    /// What it wrote to its standard output.
    pub stdout: String,
    /// What it wrote to its standard error.
    pub stderr: String,
}

/// What a [`CommandOutput`] says.
pub struct OutputView {
    pub success: bool,
    pub code: Option<i32>,
    pub status: Seq<char>,
    pub stdout: Seq<char>,
    pub stderr: Seq<char>,
}

impl View for CommandOutput {
    type V = OutputView;

    open spec fn view(&self) -> OutputView {
        OutputView {
            success: self.success,
            code: self.code,
            status: self.status@,
            stdout: self.stdout@,
            stderr: self.stderr@,
        }
    }
}

/// What running a program gave, or why it could not be started.
pub open spec fn ran_view(ran: Result<CommandOutput, String>) -> Result<OutputView, Seq<char>> {
    match ran {
        Ok(output) => Ok(output@),
        Err(e) => Err(e@),
    }
}

/// What a program left is all of what is known of it.
pub proof fn law_output_says_what_was_left(output: CommandOutput, e: String)
    ensures
        output@.success == output.success,
        output@.code == output.code,
        output@.status == output.status@,
        output@.stdout == output.stdout@,
        output@.stderr == output.stderr@,
        ran_view(Ok(output)) == Ok::<OutputView, Seq<char>>(output@),
        ran_view(Err(e)) == Err::<OutputView, Seq<char>>(e@),
{
}

} // verus!
