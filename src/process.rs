use vstd::prelude::*;

use crate::text::strings_view;
use crate::tooling::InstallStep;

verus! {

/// The Python backend: packages run with `uvx`.
#[derive(Debug, Clone, Copy)]
pub struct PythonRunner;

/// The JavaScript backend: packages run with `bunx`.
#[derive(Debug, Clone, Copy)]
pub struct JsRunner;

/// `prefix` followed by `args`.
fn with_args(prefix: Vec<String>, args: &Vec<String>) -> (r: Vec<String>)
    ensures
        strings_view(r@) == strings_view(prefix@) + strings_view(args@),
{
    let mut r = prefix;
    let ghost p = r@;
    let mut i: usize = 0;
    while i < args.len()
        invariant
            i <= args@.len(),
            strings_view(r@) == strings_view(p) + strings_view(args@.take(i as int)),
        decreases args@.len() - i,
    {
        let ghost old_r = r@;
        let c = args[i].clone();
        r.push(c);
        proof {
            assert(strings_view(r@) =~= strings_view(r@.drop_last()).push(c@));
            assert(r@.drop_last() == old_r);
            assert(args@.take(i + 1) =~= args@.take(i as int).push(args@[i as int]));
            assert(strings_view(r@) =~= strings_view(p) + strings_view(args@.take(i + 1)));
        }
        i = i + 1;
    }
    proof {
        assert(args@.take(args@.len() as int) =~= args@);
    }
    r
}

impl PythonRunner {
    /// The command that tells whether `uv` is present.
    pub fn check_command(&self) -> (r: Vec<String>)
        ensures
            strings_view(r@) == seq!["uv"@, "--version"@],
    {
        let r = vec!["uv".to_string(), "--version".to_string()];
        assert(strings_view(r@) =~= seq!["uv"@, "--version"@]);
        r
    }

    /// The installer: `uv`'s install script, then a Python through `uv`.
    pub fn install_steps(&self) -> (r: Vec<InstallStep>)
        ensures
            r@.len() == 2,
            strings_view(r@[0].argv@) == seq![
                "sh"@,
                "-c"@,
                "curl -LsSf https://astral.sh/uv/install.sh | sh"@,
            ],
            r@[0].failure matches Some(m) && m@ == "uv installation script failed"@,
            strings_view(r@[1].argv@) == seq!["uv"@, "python"@, "install"@],
            r@[1].failure matches Some(m) && m@ == "uv python install command failed"@,
    {
        let script = vec![
            "sh".to_string(),
            "-c".to_string(),
            "curl -LsSf https://astral.sh/uv/install.sh | sh".to_string(),
        ];
        let python = vec!["uv".to_string(), "python".to_string(), "install".to_string()];
        assert(strings_view(script@) =~= seq![
            "sh"@,
            "-c"@,
            "curl -LsSf https://astral.sh/uv/install.sh | sh"@,
        ]);
        assert(strings_view(python@) =~= seq!["uv"@, "python"@, "install"@]);
        vec![
            InstallStep {
                argv: script,
                failure: Some("uv installation script failed".to_string()),
            },
            InstallStep {
                argv: python,
                failure: Some("uv python install command failed".to_string()),
            },
        ]
    }

    /// The command that runs `package` with `args`.
    pub fn launch_command(&self, package: &String, args: &Vec<String>) -> (r: Vec<String>)
        ensures
            strings_view(r@) == seq!["uvx"@, "run"@, package@, "--"@] + strings_view(args@),
    {
        let prefix = vec!["uvx".to_string(), "run".to_string(), package.clone(), "--".to_string()];
        assert(strings_view(prefix@) =~= seq!["uvx"@, "run"@, package@, "--"@]);
        with_args(prefix, args)
    }

    /// The message of a launch whose tool is still missing after its install.
    pub fn missing_tool_message(&self) -> (r: String)
        ensures
            r@ == "uv is not installed and could not be installed"@,
    {
        "uv is not installed and could not be installed".to_string()
    }
}

impl JsRunner {
    /// The command that tells whether `bun` is present.
    pub fn check_command(&self) -> (r: Vec<String>)
        ensures
            strings_view(r@) == seq!["bun"@, "--version"@],
    {
        let r = vec!["bun".to_string(), "--version".to_string()];
        assert(strings_view(r@) =~= seq!["bun"@, "--version"@]);
        r
    }

    /// The installer: `bun`'s install script.
    pub fn install_steps(&self) -> (r: Vec<InstallStep>)
        ensures
            r@.len() == 1,
            strings_view(r@[0].argv@) == seq![
                "sh"@,
                "-c"@,
                "curl -fsSL https://bun.sh/install | bash"@,
            ],
            r@[0].failure matches Some(m) && m@ == "bun installation script failed"@,
    {
        let script = vec![
            "sh".to_string(),
            "-c".to_string(),
            "curl -fsSL https://bun.sh/install | bash".to_string(),
        ];
        assert(strings_view(script@) =~= seq![
            "sh"@,
            "-c"@,
            "curl -fsSL https://bun.sh/install | bash"@,
        ]);
        vec![InstallStep { argv: script, failure: Some("bun installation script failed".to_string()) }]
    }

    /// The command that runs `package` with `args`.
    pub fn launch_command(&self, package: &String, args: &Vec<String>) -> (r: Vec<String>)
        ensures
            strings_view(r@) == seq!["bunx"@, "-y"@, package@, "--"@] + strings_view(args@),
    {
        let prefix = vec!["bunx".to_string(), "-y".to_string(), package.clone(), "--".to_string()];
        assert(strings_view(prefix@) =~= seq!["bunx"@, "-y"@, package@, "--"@]);
        with_args(prefix, args)
    }

    /// The message of a launch whose tool is still missing after its install.
    pub fn missing_tool_message(&self) -> (r: String)
        ensures
            r@ == "bun is not installed and could not be installed"@,
    {
        "bun is not installed and could not be installed".to_string()
    }
}

} // verus!
