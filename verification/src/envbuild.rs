//! Plans for the subprocesses that build the isolated self-environment,
//! and the paths into it.
//!
//! The environment-isolation facility and the dependency installer are
//! external collaborators: the contract here is which commands run, in
//! what order, with what arguments and environment.  The surrounding
//! binary spawns them and reports each exit status back to the phase
//! machine; any non-zero exit is fatal for its step.

use vstd::prelude::*;
use vstd::string::StringExecFns;
use crate::shims::Platform;
use crate::CommandOutput;

verus! {

/// One subprocess to run: program, arguments, extra environment.
pub struct CmdSpec {
    pub program: String,
    pub args: Vec<String>,
    pub env: Vec<(String, String)>,
}

/// The views of an argument list.
pub open spec fn arg_views(args: Seq<String>) -> Seq<Seq<char>> {
    args.map_values(|s: String| s@)
}

/// The views of an environment list.
pub open spec fn env_views(env: Seq<(String, String)>) -> Seq<(Seq<char>, Seq<char>)> {
    env.map_values(|p: (String, String)| (p.0@, p.1@))
}

/// The verbosity arguments every installer invocation gets: verbose mode
/// asks for detail, anything else runs quietly.
pub open spec fn verbosity_args_spec(output: CommandOutput) -> Seq<Seq<char>> {
    if output == CommandOutput::Verbose {
        seq!["--verbose"@]
    } else {
        seq!["--quiet"@]
    }
}

/// Outside verbose mode, non-fatal interpreter warnings are suppressed
/// through the environment.
pub open spec fn warnings_env_spec(output: CommandOutput) -> Seq<(Seq<char>, Seq<char>)> {
    if output == CommandOutput::Verbose {
        Seq::empty()
    } else {
        seq![("PYTHONWARNINGS"@, "ignore"@)]
    }
}

/// The proxy variable handed to subprocesses when a proxy is configured.
pub open spec fn proxy_env_spec(proxy: Option<Seq<char>>) -> Seq<(Seq<char>, Seq<char>)> {
    match proxy {
        Some(p) => seq![("https_proxy"@, p)],
        None => Seq::empty(),
    }
}

fn push_verbosity_args(args: &mut Vec<String>, output: CommandOutput)
    ensures
        arg_views(final(args)@) =~= arg_views(old(args)@) + verbosity_args_spec(output),
{
    if output == CommandOutput::Verbose {
        args.push(String::from_str("--verbose"));
    } else {
        args.push(String::from_str("--quiet"));
    }
}

fn warnings_env(output: CommandOutput) -> (r: Vec<(String, String)>)
    ensures
        env_views(r@) =~= warnings_env_spec(output),
{
    let mut env: Vec<(String, String)> = Vec::new();
    if output != CommandOutput::Verbose {
        env.push((String::from_str("PYTHONWARNINGS"), String::from_str("ignore")));
    }
    env
}

fn push_proxy_env(env: &mut Vec<(String, String)>, proxy: &Option<String>)
    ensures
        env_views(final(env)@) =~= env_views(old(env)@) + proxy_env_spec(
            match *proxy {
                Some(ref p) => Some(p@),
                None => None,
            },
        ),
{
    match proxy {
        Some(p) => {
            env.push((String::from_str("https_proxy"), p.clone()));
        },
        None => {},
    }
}

/// The command that creates the isolated environment: the runtime's own
/// isolation facility, asked to upgrade its dependency tooling, with
/// symbolic-link mode requested explicitly on Windows hosts that support
/// it (the facility under-detects it there), and the proxy propagated.
pub fn venv_create_command(
    py_bin: &String,
    venv_dir: &String,
    platform: Platform,
    symlinks_supported: bool,
    proxy: &Option<String>,
) -> (r: CmdSpec)
    ensures
        r.program@ == py_bin@,
        arg_views(r.args@) =~= seq!["-mvenv"@, "--upgrade-deps"@] + (if platform
            == Platform::Windows && symlinks_supported {
            seq!["--symlinks"@]
        } else {
            Seq::<Seq<char>>::empty()
        }) + seq![venv_dir@],
        env_views(r.env@) =~= proxy_env_spec(
            match *proxy {
                Some(ref p) => Some(p@),
                None => None,
            },
        ),
{
    let mut args: Vec<String> = Vec::new();
    args.push(String::from_str("-mvenv"));
    args.push(String::from_str("--upgrade-deps"));
    if platform == Platform::Windows && symlinks_supported {
        args.push(String::from_str("--symlinks"));
    }
    args.push(venv_dir.clone());
    let mut env: Vec<(String, String)> = Vec::new();
    push_proxy_env(&mut env, proxy);
    CmdSpec { program: py_bin.clone(), args, env }
}

/// The command that upgrades the environment's package-installation tool
/// to latest, quietly unless verbose.
pub fn pip_upgrade_command(pip_bin: &String, output: CommandOutput) -> (r: CmdSpec)
    ensures
        r.program@ == pip_bin@,
        arg_views(r.args@) =~= seq!["install"@, "--upgrade"@, "pip"@] + verbosity_args_spec(output),
        env_views(r.env@) =~= warnings_env_spec(output),
{
    let mut args: Vec<String> = Vec::new();
    args.push(String::from_str("install"));
    args.push(String::from_str("--upgrade"));
    args.push(String::from_str("pip"));
    push_verbosity_args(&mut args, output);
    CmdSpec { program: pip_bin.clone(), args, env: warnings_env(output) }
}

/// The command that installs the pinned internal dependencies from the
/// written-out manifest at `req_path`, with the proxy propagated.
pub fn pip_install_requirements_command(
    pip_bin: &String,
    req_path: &String,
    output: CommandOutput,
    proxy: &Option<String>,
) -> (r: CmdSpec)
    ensures
        r.program@ == pip_bin@,
        arg_views(r.args@) =~= seq!["install"@, "-r"@, req_path@] + verbosity_args_spec(output),
        env_views(r.env@) =~= warnings_env_spec(output) + proxy_env_spec(
            match *proxy {
                Some(ref p) => Some(p@),
                None => None,
            },
        ),
{
    let mut args: Vec<String> = Vec::new();
    args.push(String::from_str("install"));
    args.push(String::from_str("-r"));
    args.push(req_path.clone());
    push_verbosity_args(&mut args, output);
    let mut env = warnings_env(output);
    push_proxy_env(&mut env, proxy);
    CmdSpec { program: pip_bin.clone(), args, env }
}

/// Judges one environment-construction step by its exit: a non-zero exit
/// is fatal for exactly that step, with no partial-success continuation.
pub fn env_step_result(step: crate::SetupStep, exited_ok: bool) -> (r: Result<
    (),
    crate::BootstrapError,
>)
    ensures
        r is Ok <==> exited_ok,
        r is Err ==> r->Err_0 == (crate::BootstrapError::EnvironmentSetupFailed { step }),
{
    if exited_ok {
        Ok(())
    } else {
        Err(crate::BootstrapError::EnvironmentSetupFailed { step })
    }
}

/// The pinned, version-locked manifest of internal dependencies; installs
/// resolve from this explicit list, never from an unpinned "latest".
pub open spec fn self_requirements_spec() -> Seq<char> {
    "build==0.10.0\ncertifi==2022.12.7\ncharset-normalizer==3.1.0\nclick==8.1.3\ndistlib==0.3.6\nfilelock==3.12.0\nidna==3.4\npackaging==23.1\npip-tools==6.13.0\nplatformdirs==3.4.0\npyproject_hooks==1.0.0\nrequests==2.29.0\ntomli==2.0.1\ntwine==4.0.2\nunearth==0.9.0\nurllib3==1.26.15\nvirtualenv==20.22.0\n"@
}

/// The text of the pinned internal-dependency manifest.
pub fn self_requirements() -> (r: &'static str)
    ensures
        r@ == self_requirements_spec(),
{
    "build==0.10.0\ncertifi==2022.12.7\ncharset-normalizer==3.1.0\nclick==8.1.3\ndistlib==0.3.6\nfilelock==3.12.0\nidna==3.4\npackaging==23.1\npip-tools==6.13.0\nplatformdirs==3.4.0\npyproject_hooks==1.0.0\nrequests==2.29.0\ntomli==2.0.1\ntwine==4.0.2\nunearth==0.9.0\nurllib3==1.26.15\nvirtualenv==20.22.0\n"
}

/// The path separator of the platform.
pub open spec fn sep_char(platform: Platform) -> char {
    if platform == Platform::Windows {
        '\\'
    } else {
        '/'
    }
}

/// The separator as a string.
fn sep_str(platform: Platform) -> (r: &'static str)
    ensures
        r@ == seq![sep_char(platform)],
{
    proof {
        reveal_strlit("\\");
        reveal_strlit("/");
    }
    if platform == Platform::Windows {
        "\\"
    } else {
        "/"
    }
}

/// Where the self-environment keeps installed packages, relative to its
/// `lib` directory; tied to the pinned internal runtime version.
pub open spec fn site_packages_spec(platform: Platform) -> Seq<char> {
    if platform == Platform::Windows {
        "site-packages"@
    } else {
        "python3.10/site-packages"@
    }
}

/// The pip package directory inside the self-environment.
pub open spec fn pip_module_spec(venv: Seq<char>, platform: Platform) -> Seq<char> {
    venv + seq![sep_char(platform)] + "lib"@ + seq![sep_char(platform)] + site_packages_spec(
        platform,
    ) + seq![sep_char(platform)] + "pip"@
}

/// Returns the pip module directory of the self-environment at `venv`.
pub fn get_pip_module(venv: &str, platform: Platform) -> (r: String)
    ensures
        r@ == pip_module_spec(venv@, platform),
{
    let sep = sep_str(platform);
    let mut out = venv.to_owned();
    out.append(sep);
    out.append("lib");
    out.append(sep);
    if platform == Platform::Windows {
        out.append("site-packages");
    } else {
        out.append("python3.10/site-packages");
    }
    out.append(sep);
    out.append("pip");
    proof {
        assert(out@ =~= pip_module_spec(venv@, platform));
    }
    out
}

/// The in-package runner script pip is invoked through.
pub open spec fn pip_runner_spec(venv: Seq<char>, platform: Platform) -> Seq<char> {
    pip_module_spec(venv, platform) + seq![sep_char(platform)] + "__pip-runner__.py"@
}

/// Returns the pip runner script of the self-environment at `venv`.
pub fn get_pip_runner(venv: &str, platform: Platform) -> (r: String)
    ensures
        r@ == pip_runner_spec(venv@, platform),
{
    let mut out = get_pip_module(venv, platform);
    out.append(sep_str(platform));
    out.append("__pip-runner__.py");
    proof {
        assert(out@ =~= pip_runner_spec(venv@, platform));
    }
    out
}

} // verus!
