//! Clearing leftover backends before a new one is started, and the arguments
//! with which the new one is started.

use vstd::prelude::*;

verus! {

/// The operating systems the shell knows how to clean up on.
#[derive(Clone, Copy, Debug, PartialEq, Eq, Structural)]
pub enum Platform {
    Windows,
    MacOs,
    Linux,
    Other,
}

/// A command for the operating system: a program and its arguments.
#[derive(Debug)]
pub struct ReapCommand {
    pub program: &'static str,
    pub arguments: Vec<&'static str>,
}

impl ReapCommand {
    /// This command runs `program` with exactly the arguments `first`, `second`
    /// and `third`, of which the last may be missing.
    pub open spec fn runs(
        self,
        program: Seq<char>,
        first: Seq<char>,
        second: Seq<char>,
        third: Option<Seq<char>>,
    ) -> bool {
        &&& self.program@ == program
        &&& self.arguments@.len() == if third.is_some() { 3int } else { 2int }
        &&& self.arguments@[0]@ == first
        &&& self.arguments@[1]@ == second
        &&& third matches Some(last) ==> self.arguments@[2]@ == last
    }
}

/// The logical name under which the backend executable is found.
pub fn backend_name() -> (name: &'static str)
    ensures
        name@ == "api-server"@,
{
    "api-server"
}

/// The command that ends leftover backends on the given platform: a forced kill
/// by image name on Windows, a kill by command-line pattern elsewhere, and none
/// where no facility is known. Its outcome is to be ignored by whoever runs it.
pub fn kill_zombie_sidecars(platform: Platform) -> (command: Option<ReapCommand>)
    ensures
        platform == Platform::Other <==> command.is_none(),
        platform == Platform::Windows ==> command.unwrap().runs(
            "taskkill"@,
            "/F"@,
            "/IM"@,
            Some("api-server.exe"@),
        ),
        platform == Platform::MacOs || platform == Platform::Linux ==> command.unwrap().runs(
            "pkill"@,
            "-f"@,
            "api-server"@,
            None,
        ),
{
    match platform {
        Platform::Windows => {
            let mut arguments: Vec<&'static str> = Vec::new();
            arguments.push("/F");
            arguments.push("/IM");
            arguments.push("api-server.exe");
            Some(ReapCommand { program: "taskkill", arguments })
        },
        Platform::MacOs | Platform::Linux => {
            let mut arguments: Vec<&'static str> = Vec::new();
            arguments.push("-f");
            arguments.push(backend_name());
            Some(ReapCommand { program: "pkill", arguments })
        },
        Platform::Other => None,
    }
}

} // verus!
