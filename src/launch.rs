use vstd::prelude::*;

verus! {

/// How the application was built: from a source checkout, or bundled with
/// the worker's executable as a resource.
#[derive(Clone, Copy, Debug, PartialEq, Eq, Structural)]
pub enum RuntimeMode {
    Development,
    Packaged,
}

/// The family of operating system the application runs on.
#[derive(Clone, Copy, Debug, PartialEq, Eq, Structural)]
pub enum HostKind {
    Windows,
    Other,
}

/// How to start the worker.
#[derive(Clone, Debug)]
pub struct LaunchPlan {
    pub executable: String,
    pub arguments: Vec<String>,
    pub working_directory: String,
}

/// A command that stops the worker.
#[derive(Clone, Debug)]
pub struct TerminationCommand {
    pub program: String,
    pub arguments: Vec<String>,
}

/// Why no launch plan could be made.
#[derive(Clone, Copy, Debug, PartialEq, Eq, Structural)]
pub enum ResolveError {
    /// The bundled worker executable was not found among the resources.
    ResourceMissing,
    /// The resolved executable has no parent directory to run in.
    NoParentDirectory,
}

/// The text of each string.
pub open spec fn texts(v: Seq<String>) -> Seq<Seq<char>> {
    v.map_values(|a: String| a@)
}

/// The path `base` with `segment` joined onto it, as `Path::join` makes it.
pub uninterp spec fn joined_path(base: Seq<char>, segment: Seq<char>) -> Seq<char>;

/// The parent directory of a path, as `Path::parent` gives it.
pub uninterp spec fn parent_path(p: Seq<char>) -> Option<Seq<char>>;

/// Relies on `std::path::Path::join`: the result depends on the two paths alone.
#[verifier::external_body]
fn join_path(base: &str, segment: &str) -> (r: String)
    ensures
        r@ == joined_path(base@, segment@),
{
    std::path::Path::new(base).join(segment).to_string_lossy().into_owned()
}

/// Relies on `std::path::Path::parent`: the result depends on the path alone,
/// and the empty path has no parent.
#[verifier::external_body]
fn parent_dir(p: &str) -> (r: Option<String>)
    ensures
        match r {
            Some(d) => parent_path(p@) == Some(d@),
            None => parent_path(p@) is None,
        },
        p@.len() == 0 ==> r is None,
{
    match std::path::Path::new(p).parent() {
        Some(d) => Some(d.to_string_lossy().into_owned()),
        None => None,
    }
}

/// The name of the bundled worker executable, also its process image name.
pub open spec fn worker_executable() -> Seq<char> {
    "rag_api_server.exe"@
}

/// The worker script of a source checkout, below the current directory.
pub open spec fn dev_script(current_dir: Seq<char>) -> Seq<char> {
    joined_path(joined_path(current_dir, "rag"@), "rag_api_server.py"@)
}

/// `p` runs `exe` with `args` in `wd`.
pub open spec fn plan_is(p: LaunchPlan, exe: Seq<char>, args: Seq<Seq<char>>, wd: Seq<char>) -> bool {
    &&& p.executable@ == exe
    &&& texts(p.arguments@) == args
    &&& p.working_directory@ == wd
}

/// The plan for a bundled worker at `executable`, given its parent directory
/// if it has one: run it without arguments in that directory.
pub fn packaged_plan(executable: &str, parent: Option<String>) -> (r: Result<
    LaunchPlan,
    ResolveError,
>)
    ensures
        match parent {
            Some(d) => r matches Ok(p) && plan_is(p, executable@, seq![], d@),
            None => r == Err::<LaunchPlan, ResolveError>(ResolveError::NoParentDirectory),
        },
{
    match parent {
        Some(d) => {
            let plan = LaunchPlan {
                executable: executable.to_owned(),
                arguments: Vec::new(),
                working_directory: d,
            };
            assert(texts(plan.arguments@) =~= seq![]);
            Ok(plan)
        },
        None => Err(ResolveError::NoParentDirectory),
    }
}

/// Decides how to start the worker. In development it is the Python
/// interpreter on the worker script under `current_dir`, run in
/// `current_dir`. Packaged, it is the bundled executable that resource lookup
/// found (`resource`), run in its own directory; without it there is no plan.
pub fn resolve_launch_plan(mode: RuntimeMode, current_dir: &str, resource: Option<String>) -> (r:
    Result<LaunchPlan, ResolveError>)
    ensures
        mode == RuntimeMode::Development ==> (r matches Ok(p) && plan_is(
            p,
            "python"@,
            seq![dev_script(current_dir@)],
            current_dir@,
        )),
        mode == RuntimeMode::Packaged ==> match resource {
            None => r == Err::<LaunchPlan, ResolveError>(ResolveError::ResourceMissing),
            Some(exe) => match parent_path(exe@) {
                Some(d) => r matches Ok(p) && plan_is(p, exe@, seq![], d),
                None => r == Err::<LaunchPlan, ResolveError>(ResolveError::NoParentDirectory),
            },
        },
{
    match mode {
        RuntimeMode::Development => {
            let dir = join_path(current_dir, "rag");
            let script = join_path(dir.as_str(), "rag_api_server.py");
            let mut arguments: Vec<String> = Vec::new();
            arguments.push(script);
            let plan = LaunchPlan {
                executable: "python".to_owned(),
                arguments,
                working_directory: current_dir.to_owned(),
            };
            assert(texts(plan.arguments@) =~= seq![dev_script(current_dir@)]);
            Ok(plan)
        },
        RuntimeMode::Packaged => match resource {
            None => Err(ResolveError::ResourceMissing),
            Some(exe) => {
                let parent = parent_dir(exe.as_str());
                packaged_plan(exe.as_str(), parent)
            },
        },
    }
}

/// How to stop the worker when the main window is destroyed: on Windows a
/// forced kill of every process with the worker's image name; elsewhere
/// nothing, leaving it to the operating system.
pub fn termination_command(host: HostKind) -> (r: Option<TerminationCommand>)
    ensures
        host == HostKind::Windows <==> r is Some,
        r matches Some(c) ==> (c.program@ == "taskkill"@ && texts(c.arguments@) == seq![
            "/F"@,
            "/IM"@,
            worker_executable(),
        ]),
{
    match host {
        HostKind::Windows => {
            let mut arguments: Vec<String> = Vec::new();
            arguments.push("/F".to_owned());
            arguments.push("/IM".to_owned());
            arguments.push("rag_api_server.exe".to_owned());
            let c = TerminationCommand { program: "taskkill".to_owned(), arguments };
            assert(texts(c.arguments@) =~= seq!["/F"@, "/IM"@, worker_executable()]);
            Some(c)
        },
        HostKind::Other => None,
    }
}

} // verus!
