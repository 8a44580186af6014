use vstd::prelude::*;

use crate::error::SupervisorError;

verus! {

/// Port the development invocation of the backend listens on.
pub const DEV_PORT: u16 = 8000;

/// Port the packaged backend listens on.
pub const PROD_PORT: u16 = 58735;

/// How the backend is launched: through the package runner of the source tree,
/// or as the executable bundled with the application.
#[derive(Clone, Copy, Debug, PartialEq, Eq, Structural)]
pub enum LaunchMode {
    Development,
    Production,
}

/// Mode chosen from whether the packaged executable could be resolved.
pub open spec fn mode_for(packaged_resolvable: bool) -> LaunchMode {
    if packaged_resolvable {
        LaunchMode::Production
    } else {
        LaunchMode::Development
    }
}

/// The absence of the packaged executable is the normal signal for development
/// mode, not an error.
pub fn detect_mode(packaged_resolvable: bool) -> (m: LaunchMode)
    ensures
        m == mode_for(packaged_resolvable),
{
    if packaged_resolvable {
        LaunchMode::Production
    } else {
        LaunchMode::Development
    }
}

/// Decimal digit `d` (below ten) as a character.
pub open spec fn digit_char(d: nat) -> char {
    if d == 0 { '0' }
    else if d == 1 { '1' }
    else if d == 2 { '2' }
    else if d == 3 { '3' }
    else if d == 4 { '4' }
    else if d == 5 { '5' }
    else if d == 6 { '6' }
    else if d == 7 { '7' }
    else if d == 8 { '8' }
    else { '9' }
}

/// Decimal text of `n`, without sign or leading zeros.
pub open spec fn decimal(n: nat) -> Seq<char>
    decreases n,
{
    if n < 10 {
        seq![digit_char(n)]
    } else {
        decimal(n / 10) + seq![digit_char(n % 10)]
    }
}

fn digit_text(d: u32) -> (r: &'static str)
    requires
        d < 10,
    ensures
        r@ == seq![digit_char(d as nat)],
{
    proof {
        reveal_strlit("0");
        reveal_strlit("1");
        reveal_strlit("2");
        reveal_strlit("3");
        reveal_strlit("4");
        reveal_strlit("5");
        reveal_strlit("6");
        reveal_strlit("7");
        reveal_strlit("8");
        reveal_strlit("9");
    }
    let r = if d == 0 { "0" }
    else if d == 1 { "1" }
    else if d == 2 { "2" }
    else if d == 3 { "3" }
    else if d == 4 { "4" }
    else if d == 5 { "5" }
    else if d == 6 { "6" }
    else if d == 7 { "7" }
    else if d == 8 { "8" }
    else { "9" };
    assert(r@ =~= seq![digit_char(d as nat)]);
    r
}

/// Appends the decimal text of `n` to `out`.
pub fn push_decimal(out: &mut String, n: u32)
    ensures
        final(out)@ == old(out)@ + decimal(n as nat),
    decreases n,
{
    if n >= 10 {
        push_decimal(out, n / 10);
    }
    out.append(digit_text(n % 10));
}

/// Decimal text of `n`.
pub fn decimal_text(n: u32) -> (r: String)
    ensures
        r@ == decimal(n as nat),
{
    let mut r = String::new();
    push_decimal(&mut r, n);
    assert(r@ =~= decimal(n as nat));
    r
}

/// Name under which the packaged backend executable is bundled.
pub const PACKAGED_NAME: &'static str = "sts-gui-backend";

/// Package runner that starts the backend from the source tree.
pub const RUNNER: &'static str = "uv";

/// Entry point of the backend, as the package runner knows it.
pub const DEV_ENTRY_POINT: &'static str = "sts-gui-server";

/// Permission bits given to a packaged executable that lacks the execute bit.
pub const PACKAGED_EXEC_MODE: u32 = 0o755;

/// How the backend process is to be spawned.
#[derive(Debug)]
pub struct LaunchPlan {
    pub mode: LaunchMode,
    /// Packaged executable name (production) or package runner (development).
    pub program: String,
    pub args: Vec<String>,
    /// Working directory; `None` leaves it to the host's execution facility.
    pub cwd: Option<String>,
    /// Standard input is kept open as a pipe, so that the child sees end-of-file
    /// when its parent dies.
    pub stdin_piped: bool,
    /// Output is read and relayed; otherwise it is discarded, never left
    /// buffering in an unread pipe.
    pub capture_output: bool,
}

pub open spec fn strings_view(v: Seq<String>) -> Seq<Seq<char>> {
    v.map_values(|s: String| s@)
}

pub open spec fn opt_view(o: Option<String>) -> Option<Seq<char>> {
    match o {
        Some(s) => Some(s@),
        None => None,
    }
}

pub open spec fn result_view<E>(r: Result<String, E>) -> Result<Seq<char>, E> {
    match r {
        Ok(s) => Ok(s@),
        Err(e) => Err(e),
    }
}

pub open spec fn port_for(mode: LaunchMode) -> u16 {
    match mode {
        LaunchMode::Development => DEV_PORT,
        LaunchMode::Production => PROD_PORT,
    }
}

pub open spec fn program_for(mode: LaunchMode) -> Seq<char> {
    match mode {
        LaunchMode::Development => RUNNER@,
        LaunchMode::Production => PACKAGED_NAME@,
    }
}

pub open spec fn args_for(mode: LaunchMode) -> Seq<Seq<char>> {
    match mode {
        LaunchMode::Development => seq![
            "run"@,
            DEV_ENTRY_POINT@,
            "--port"@,
            decimal(DEV_PORT as nat),
        ],
        LaunchMode::Production => seq!["--production"@, "--port"@, decimal(PROD_PORT as nat)],
    }
}

pub open spec fn cwd_for(mode: LaunchMode, workspace: Seq<char>) -> Option<Seq<char>> {
    match mode {
        LaunchMode::Development => Some(workspace),
        LaunchMode::Production => None,
    }
}

impl LaunchPlan {
    /// The plan for `mode`: program, arguments and working directory as that
    /// mode requires, standard input piped, output relayed only when `diagnostic`.
    pub open spec fn is_plan_for(&self, mode: LaunchMode, workspace: Seq<char>, diagnostic: bool) -> bool {
        &&& self.mode == mode
        &&& self.program@ == program_for(mode)
        &&& strings_view(self.args@) == args_for(mode)
        &&& opt_view(self.cwd) == cwd_for(mode, workspace)
        &&& self.stdin_piped
        &&& self.capture_output == diagnostic
    }
}

/// Port the backend listens on in `mode`.
pub fn port(mode: LaunchMode) -> (p: u16)
    ensures
        p == port_for(mode),
{
    match mode {
        LaunchMode::Development => DEV_PORT,
        LaunchMode::Production => PROD_PORT,
    }
}

/// Builds the launch plan for `mode`, with `workspace` as the development
/// working directory.
pub fn plan_launch(mode: LaunchMode, workspace: &str, diagnostic: bool) -> (r: LaunchPlan)
    ensures
        r.is_plan_for(mode, workspace@, diagnostic),
{
    let port_text = decimal_text(port(mode) as u32);
    let mut args: Vec<String> = Vec::new();
    let program;
    let cwd;
    match mode {
        LaunchMode::Development => {
            program = String::from_str(RUNNER);
            args.push(String::from_str("run"));
            args.push(String::from_str(DEV_ENTRY_POINT));
            args.push(String::from_str("--port"));
            args.push(port_text);
            cwd = Some(String::from_str(workspace));
        },
        LaunchMode::Production => {
            program = String::from_str(PACKAGED_NAME);
            args.push(String::from_str("--production"));
            args.push(String::from_str("--port"));
            args.push(port_text);
            cwd = None;
        },
    }
    let r = LaunchPlan { mode, program, args, cwd, stdin_piped: true, capture_output: diagnostic };
    assert(strings_view(r.args@) =~= args_for(mode));
    r
}

/// The workspace directory of `mode`: the fixed source-tree root in development,
/// the per-user application-data directory, as the platform reported it, in
/// production.
pub open spec fn workspace_for(
    mode: LaunchMode,
    dev_root: Seq<char>,
    app_data: Result<String, String>,
) -> Result<Seq<char>, SupervisorError> {
    match mode {
        LaunchMode::Development => Ok(dev_root),
        LaunchMode::Production => match app_data {
            Ok(dir) => Ok(dir@),
            Err(e) => Err(SupervisorError::Resolution { detail: e }),
        },
    }
}

/// Resolves the workspace directory for `mode`; fails only where the platform
/// could not report the application-data directory in production.
pub fn resolve_workspace(
    mode: LaunchMode,
    dev_root: &str,
    app_data: Result<String, String>,
) -> (r: Result<String, SupervisorError>)
    ensures
        result_view(r) == workspace_for(mode, dev_root@, app_data),
{
    match mode {
        LaunchMode::Development => Ok(String::from_str(dev_root)),
        LaunchMode::Production => match app_data {
            Ok(dir) => Ok(dir),
            Err(e) => Err(SupervisorError::Resolution { detail: e }),
        },
    }
}

/// Whether the owner execute bit is missing from `bits`.
pub open spec fn lacks_exec_bit(bits: u32) -> bool {
    bits & 0o100u32 == 0
}

/// The permission bits to set on the packaged executable before spawning it,
/// or `None` where it is executable already.
pub fn exec_permission_fix(bits: u32) -> (r: Option<u32>)
    ensures
        r == (if lacks_exec_bit(bits) { Some(PACKAGED_EXEC_MODE) } else { None }),
{
    if bits & 0o100u32 == 0 {
        Some(PACKAGED_EXEC_MODE)
    } else {
        None
    }
}

/// Workspace path reported to callers that need to locate shared files: the
/// mode is detected afresh and the workspace of that mode resolved, whether or
/// not the backend runs.
pub fn status_path(
    packaged_resolvable: bool,
    dev_root: &str,
    app_data: Result<String, String>,
) -> (r: Result<String, SupervisorError>)
    ensures
        result_view(r) == workspace_for(mode_for(packaged_resolvable), dev_root@, app_data),
{
    resolve_workspace(detect_mode(packaged_resolvable), dev_root, app_data)
}

/// Prepares a launch: detects the mode, resolves its workspace and builds the
/// plan; fails only where the workspace cannot be resolved.
pub fn prepare_launch(
    packaged_resolvable: bool,
    dev_root: &str,
    app_data: Result<String, String>,
    diagnostic: bool,
) -> (r: Result<LaunchPlan, SupervisorError>)
    ensures
        match workspace_for(mode_for(packaged_resolvable), dev_root@, app_data) {
            Ok(w) => r is Ok && r->Ok_0.is_plan_for(mode_for(packaged_resolvable), w, diagnostic),
            Err(e) => r == Err::<LaunchPlan, SupervisorError>(e),
        },
{
    let mode = detect_mode(packaged_resolvable);
    match resolve_workspace(mode, dev_root, app_data) {
        Ok(workspace) => Ok(plan_launch(mode, workspace.as_str(), diagnostic)),
        Err(e) => Err(e),
    }
}

/// With the packaged executable resolvable, the launch runs it with
/// `--production`; without it, the launch runs the package runner and never
/// names the packaged executable nor passes `--production`.
pub proof fn lemma_mode_correctness(packaged_resolvable: bool, workspace: Seq<char>, diagnostic: bool, plan: LaunchPlan)
    requires
        plan.is_plan_for(mode_for(packaged_resolvable), workspace, diagnostic),
    ensures
        packaged_resolvable ==> plan.program@ == PACKAGED_NAME@ && strings_view(plan.args@).contains(
            "--production"@,
        ),
        !packaged_resolvable ==> plan.program@ != PACKAGED_NAME@ && !strings_view(plan.args@).contains(
            "--production"@,
        ),
{
    reveal_strlit("--production");
    reveal_strlit("--port");
    reveal_strlit("run");
    reveal_strlit("sts-gui-server");
    reveal_strlit("sts-gui-backend");
    reveal_strlit("uv");
    let args = strings_view(plan.args@);
    if packaged_resolvable {
        assert(args[0] == "--production"@);
    } else {
        assert(decimal(8000) =~= seq!['8', '0', '0', '0']) by {
            reveal_with_fuel(decimal, 5);
        }
        assert(plan.program@.len() != PACKAGED_NAME@.len());
        assert forall|i: int| 0 <= i < args.len() implies args[i] != "--production"@ by {
            assert(args[i].len() != "--production"@.len());
        }
    }
}

} // verus!
