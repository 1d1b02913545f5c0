use vstd::prelude::*;
use vstd::string::*;

verus! {

/// The decimal digit of a value below ten.
pub open spec fn digit_char(d: nat) -> char {
    (('0' as u8) + d) as char
}

/// The decimal text of `n`, without leading zeros.
pub open spec fn decimal(n: nat) -> Seq<char>
    decreases n,
{
    if n < 10 {
        seq![digit_char(n)]
    } else {
        decimal(n / 10).push(digit_char(n % 10))
    }
}

fn digit_str(d: u16) -> (r: &'static str)
    requires
        d < 10,
    ensures
        r@ == seq![digit_char(d as nat)],
{
    proof {
        reveal_strlit("0");
        reveal_strlit("1");
        reveal_strlit("2");
        reveal_strlit("3");
        reveal_strlit("4");
        reveal_strlit("5");
        reveal_strlit("6");
        reveal_strlit("7");
        reveal_strlit("8");
        reveal_strlit("9");
    }
    match d {
        0 => "0",
        1 => "1",
        2 => "2",
        3 => "3",
        4 => "4",
        5 => "5",
        6 => "6",
        7 => "7",
        8 => "8",
        _ => "9",
    }
}

fn append_decimal(s: &mut String, n: u16)
    ensures
        final(s)@ == old(s)@ + decimal(n as nat),
    decreases n,
{
    if n >= 10 {
        append_decimal(s, n / 10);
    }
    s.append(digit_str(n % 10));
    assert(decimal(n as nat) =~= if n < 10 {
        seq![digit_char(n as nat)]
    } else {
        decimal((n / 10) as nat) + seq![digit_char((n % 10) as nat)]
    });
}

/// A program to run and its arguments.
pub struct CommandLine {
    pub program: String,
    pub args: Vec<String>,
}

/// The texts of a list of strings.
pub open spec fn texts(v: Seq<String>) -> Seq<Seq<char>> {
    v.map_values(|s: String| s@)
}

impl CommandLine {
    /// The program and its arguments as texts.
    pub open spec fn texts(&self) -> (Seq<char>, Seq<Seq<char>>) {
        (self.program@, texts(self.args@))
    }
}

fn owned(s: &str) -> (r: String)
    ensures
        r@ == s@,
{
    String::from_str(s)
}

/// `program` with `lead` and then each of `rest` as its arguments.
fn command_line(program: &str, lead: Vec<String>, rest: &Vec<String>) -> (r: CommandLine)
    ensures
        r.program@ == program@,
        texts(r.args@) == texts(lead@) + texts(rest@),
{
    let mut args = lead;
    let ghost start = texts(args@);
    let mut i: usize = 0;
    while i < rest.len()
        invariant
            i <= rest@.len(),
            texts(args@) == start + texts(rest@.subrange(0, i as int)),
        decreases rest@.len() - i,
    {
        let a = rest[i].clone();
        let ghost before = args@;
        args.push(a);
        assert(texts(args@) =~= texts(before).push(rest@[i as int]@));
        assert(texts(rest@.subrange(0, i + 1)) =~= texts(rest@.subrange(0, i as int)).push(
            rest@[i as int]@,
        ));
        assert(texts(args@) =~= start + texts(rest@.subrange(0, i + 1)));
        i = i + 1;
    }
    assert(rest@.subrange(0, rest@.len() as int) =~= rest@);
    CommandLine { program: owned(program), args }
}

/// Why a runner could not start its server.
#[derive(Clone, Copy, Debug, PartialEq, Eq, Structural)]
pub enum RunnerError {
    /// No host port was given to serve on.
    MissingPortBinding,
    /// The toolchain is absent and installing it did not make it present.
    NotInstalled,
    /// The install step of this index reported failure.
    InstallFailed(usize),
}

/// Where a runner stands in making its toolchain available: the toolchain is
/// checked; if absent, each install step runs in turn and the toolchain is
/// checked once more.
#[derive(Clone, Copy, Debug, PartialEq, Eq, Structural)]
pub enum Provisioning {
    /// The first check runs.
    Checking,
    /// The install step of this index runs.
    Installing(usize),
    /// The check after installing runs.
    Rechecking,
    /// The toolchain is present.
    Ready,
    /// The toolchain could not be made present.
    Failed(RunnerError),
}

/// The next stage after the current step of `p` reported `ok`, for a
/// toolchain installed in `steps` steps.
pub open spec fn provision_next(p: Provisioning, ok: bool, steps: nat) -> Provisioning {
    match p {
        Provisioning::Checking => if ok {
            Provisioning::Ready
        } else if steps == 0 {
            Provisioning::Rechecking
        } else {
            Provisioning::Installing(0)
        },
        Provisioning::Installing(i) => if !ok {
            Provisioning::Failed(RunnerError::InstallFailed(i))
        } else if i + 1 < steps {
            Provisioning::Installing((i + 1) as usize)
        } else {
            Provisioning::Rechecking
        },
        Provisioning::Rechecking => if ok {
            Provisioning::Ready
        } else {
            Provisioning::Failed(RunnerError::NotInstalled)
        },
        _ => p,
    }
}

impl Provisioning {
    /// Moves on after the current step: a check that found the toolchain
    /// ends in `Ready`; a failed first check starts the install; a failed
    /// install step ends in `InstallFailed` with its index; a failed check after installing
    /// ends in `NotInstalled`. `Ready` and `Failed` stay as they are.
    pub fn next(self, ok: bool, steps: usize) -> (r: Provisioning)
        requires
            self matches Provisioning::Installing(i) ==> i < steps,
        ensures
            r == provision_next(self, ok, steps as nat),
            r matches Provisioning::Installing(j) ==> j < steps,
    {
        match self {
            Provisioning::Checking => if ok {
                Provisioning::Ready
            } else if steps == 0 {
                Provisioning::Rechecking
            } else {
                Provisioning::Installing(0)
            },
            Provisioning::Installing(i) => if !ok {
                Provisioning::Failed(RunnerError::InstallFailed(i))
            } else if i + 1 < steps {
                Provisioning::Installing(i + 1)
            } else {
                Provisioning::Rechecking
            },
            Provisioning::Rechecking => if ok {
                Provisioning::Ready
            } else {
                Provisioning::Failed(RunnerError::NotInstalled)
            },
            _ => self,
        }
    }

    /// Whether nothing more is to run.
    pub fn is_done(&self) -> (r: bool)
        ensures
            r == (*self is Ready || *self is Failed),
    {
        match self {
            Provisioning::Ready => true,
            Provisioning::Failed(_) => true,
            _ => false,
        }
    }
}

/// The address text `127.0.0.1:` followed by the port.
pub open spec fn loopback_text(port: u16) -> Seq<char> {
    seq!['1', '2', '7', '.', '0', '.', '0', '.', '1', ':'] + decimal(port as nat)
}

/// The host port of the first binding, if there is one.
pub open spec fn first_host_port(bindings: Seq<(u16, Option<u16>)>) -> Option<u16> {
    if bindings.len() == 0 {
        None
    } else {
        Some(bindings[0].0)
    }
}

fn first_port(port_bindings: &Vec<(u16, Option<u16>)>) -> (r: Result<u16, RunnerError>)
    ensures
        match first_host_port(port_bindings@) {
            Some(p) => r == Ok::<u16, RunnerError>(p),
            None => r == Err::<u16, RunnerError>(RunnerError::MissingPortBinding),
        },
{
    if port_bindings.len() == 0 {
        Err(RunnerError::MissingPortBinding)
    } else {
        Ok(port_bindings[0].0)
    }
}

fn loopback(prefix: &str, port: u16) -> (r: String)
    ensures
        r@ == prefix@ + loopback_text(port),
{
    let mut s = String::from_str(prefix);
    proof {
        reveal_strlit("127.0.0.1:");
    }
    s.append("127.0.0.1:");
    append_decimal(&mut s, port);
    assert(s@ =~= prefix@ + loopback_text(port));
    s
}

/// Runs JavaScript servers with `bun`.
#[derive(Clone, Copy, Debug, Default)]
pub struct JsRunner;

/// Runs Python servers with `uv`.
#[derive(Clone, Copy, Debug, Default)]
pub struct PythonRunner;

/// The text that reports a missing port binding.
pub open spec fn missing_port_text() -> Seq<char> {
    "no port binding to serve on"@
}

impl JsRunner {
    /// The address the server is bound to: `127.0.0.1:` and the host port of
    /// the first binding.
    pub fn endpoint(&self, port_bindings: &Vec<(u16, Option<u16>)>) -> (r: Result<String, RunnerError>)
        ensures
            match first_host_port(port_bindings@) {
                Some(p) => r is Ok && r->Ok_0@ == loopback_text(p),
                None => r == Err::<String, RunnerError>(RunnerError::MissingPortBinding),
            },
    {
        match first_port(port_bindings) {
            Ok(p) => {
                let r = loopback("", p);
                proof {
                    reveal_strlit("");
                    assert(r@ =~= loopback_text(p));
                }
                Ok(r)
            },
            Err(e) => Err(e),
        }
    }

    /// The command that launches the package's server: `bunx -y <package> --`
    /// and then the arguments.
    pub fn launch_command(&self, package: &str, args: &Vec<String>) -> (r: CommandLine)
        ensures
            r.program@ == "bunx"@,
            texts(r.args@) == seq!["-y"@, package@, "--"@] + texts(args@),
    {
        let lead = vec![owned("-y"), owned(package), owned("--")];
        assert(texts(lead@) =~= seq!["-y"@, package@, "--"@]);
        command_line("bunx", lead, args)
    }

    /// The text that reports `e`.
    pub fn error_message(&self, e: RunnerError) -> (r: String)
        ensures
            r@ == match e {
                RunnerError::MissingPortBinding => missing_port_text(),
                RunnerError::NotInstalled => "bun is not installed and could not be installed"@,
                RunnerError::InstallFailed(_) => "bun installation script failed"@,
            },
    {
        match e {
            RunnerError::MissingPortBinding => owned("no port binding to serve on"),
            RunnerError::NotInstalled => owned("bun is not installed and could not be installed"),
            RunnerError::InstallFailed(_) => owned("bun installation script failed"),
        }
    }

    /// The command that tells whether `bun` is present: `bun --version`.
    pub fn check_command(&self) -> (r: CommandLine)
        ensures
            r.program@ == "bun"@,
            texts(r.args@) == seq!["--version"@],
    {
        let lead = vec![owned("--version")];
        assert(texts(lead@) =~= seq!["--version"@]);
        CommandLine { program: owned("bun"), args: lead }
    }

    /// The shell commands that install `bun`, in order.
    pub fn install_commands(&self) -> (r: Vec<CommandLine>)
        ensures
            r@.len() == 1,
            r@[0].program@ == "sh"@,
            texts(r@[0].args@) == seq!["-c"@, "curl -fsSL https://bun.sh/install | bash"@],
    {
        let args = vec![owned("-c"), owned("curl -fsSL https://bun.sh/install | bash")];
        assert(texts(args@) =~= seq!["-c"@, "curl -fsSL https://bun.sh/install | bash"@]);
        vec![CommandLine { program: owned("sh"), args }]
    }
}

impl PythonRunner {
    /// The URL the server is bound to: `http://127.0.0.1:` and the host port
    /// of the first binding.
    pub fn endpoint(&self, port_bindings: &Vec<(u16, Option<u16>)>) -> (r: Result<String, RunnerError>)
        ensures
            match first_host_port(port_bindings@) {
                Some(p) => r is Ok && r->Ok_0@ == "http://"@ + loopback_text(p),
                None => r == Err::<String, RunnerError>(RunnerError::MissingPortBinding),
            },
    {
        match first_port(port_bindings) {
            Ok(p) => Ok(loopback("http://", p)),
            Err(e) => Err(e),
        }
    }

    /// The command that launches the package's server: `uvx run <package> --`
    /// and then the arguments.
    pub fn launch_command(&self, package: &str, args: &Vec<String>) -> (r: CommandLine)
        ensures
            r.program@ == "uvx"@,
            texts(r.args@) == seq!["run"@, package@, "--"@] + texts(args@),
    {
        let lead = vec![owned("run"), owned(package), owned("--")];
        assert(texts(lead@) =~= seq!["run"@, package@, "--"@]);
        command_line("uvx", lead, args)
    }

    /// The text that reports `e`: the first install step installs `uv`, the
    /// second installs Python.
    pub fn error_message(&self, e: RunnerError) -> (r: String)
        ensures
            r@ == match e {
                RunnerError::MissingPortBinding => missing_port_text(),
                RunnerError::NotInstalled => "uv is not installed and could not be installed"@,
                RunnerError::InstallFailed(0) => "uv installation script failed"@,
                RunnerError::InstallFailed(_) => "uv python install command failed"@,
            },
    {
        match e {
            RunnerError::MissingPortBinding => owned("no port binding to serve on"),
            RunnerError::NotInstalled => owned("uv is not installed and could not be installed"),
            RunnerError::InstallFailed(0) => owned("uv installation script failed"),
            RunnerError::InstallFailed(_) => owned("uv python install command failed"),
        }
    }

    /// The command that tells whether `uv` is present: `uv --version`.
    pub fn check_command(&self) -> (r: CommandLine)
        ensures
            r.program@ == "uv"@,
            texts(r.args@) == seq!["--version"@],
    {
        let lead = vec![owned("--version")];
        assert(texts(lead@) =~= seq!["--version"@]);
        CommandLine { program: owned("uv"), args: lead }
    }

    /// The commands that install `uv` and then Python, in order.
    pub fn install_commands(&self) -> (r: Vec<CommandLine>)
        ensures
            r@.len() == 2,
            r@[0].program@ == "sh"@,
            texts(r@[0].args@) == seq!["-c"@, "curl -LsSf https://astral.sh/uv/install.sh | sh"@],
            r@[1].program@ == "uv"@,
            texts(r@[1].args@) == seq!["python"@, "install"@],
    {
        let a0 = vec![owned("-c"), owned("curl -LsSf https://astral.sh/uv/install.sh | sh")];
        assert(texts(a0@) =~= seq!["-c"@, "curl -LsSf https://astral.sh/uv/install.sh | sh"@]);
        let a1 = vec![owned("python"), owned("install")];
        assert(texts(a1@) =~= seq!["python"@, "install"@]);
        vec![CommandLine { program: owned("sh"), args: a0 }, CommandLine { program: owned("uv"), args: a1 }]
    }
}

} // verus!
