use std::cell::{Cell, RefCell};

use trivy_runner::{
    config, fs, image, repo, rootfs, sbom, scan, setup, trivy, CommandRunner, ExecError,
    InstallError, InvocationResult, SpawnError, ToolSpec,
};

fn strings(tokens: &[&str]) -> Vec<String> {
    tokens.iter().map(|t| t.to_string()).collect()
}

fn echo(argv: &[String]) -> Result<InvocationResult, SpawnError> {
    Ok(InvocationResult { stdout: argv.join(" "), exit_code: 0 })
}

#[test]
fn trivy_is_named_trivy() {
    let tool = trivy(|_: &str| Ok(()));
    assert_eq!(tool.name(), "trivy");
}

#[test]
fn trivy_is_installed_by_the_given_installer() {
    let asked = RefCell::new(Vec::new());
    let tool = trivy(|package: &str| {
        asked.borrow_mut().push(package.to_string());
        Ok(())
    });
    let runner = CommandRunner::new(echo);
    assert_eq!(runner.ensure_installed(&tool), Ok(()));
    assert_eq!(*asked.borrow(), strings(&["trivy"]));
}

#[test]
fn config_mode_echoes_its_argv() {
    let tool = trivy(|_: &str| Ok(()));
    let runner = CommandRunner::new(echo);
    let out = config(&runner, &tool, "--exit-code=1 ./policy".to_string());
    assert_eq!(out, Ok("trivy config --exit-code=1 ./policy".to_string()));
}

#[test]
fn config_mode_echoes_the_name_of_any_tool() {
    let tool = ToolSpec::new("scanner".to_string(), |_: &str| Ok(())).unwrap();
    let runner = CommandRunner::new(echo);
    let out = config(&runner, &tool, "--exit-code=1 ./policy".to_string());
    assert_eq!(out, Ok("scanner config --exit-code=1 ./policy".to_string()));
}

#[test]
fn config_mode_passes_its_arguments_as_one_token() {
    let seen = RefCell::new(Vec::new());
    let tool = trivy(|_: &str| Ok(()));
    let runner = CommandRunner::new(|argv: &[String]| {
        seen.borrow_mut().push(argv.to_vec());
        echo(argv)
    });
    assert!(config(&runner, &tool, "--exit-code=1 ./policy".to_string()).is_ok());
    assert_eq!(*seen.borrow(), vec![strings(&["trivy", "config", "--exit-code=1 ./policy"])]);
}

#[test]
fn setup_asks_for_the_version() {
    let seen = RefCell::new(Vec::new());
    let tool = trivy(|_: &str| Ok(()));
    let runner = CommandRunner::new(|argv: &[String]| {
        seen.borrow_mut().push(argv.to_vec());
        Ok(InvocationResult { stdout: "Version: 0.50.1\n".to_string(), exit_code: 0 })
    });
    assert_eq!(setup(&runner, &tool), Ok("Version: 0.50.1\n".to_string()));
    assert_eq!(*seen.borrow(), vec![strings(&["trivy", "--version"])]);
}

#[test]
fn fs_mode_runs_the_fs_subcommand() {
    let tool = trivy(|_: &str| Ok(()));
    let runner = CommandRunner::new(echo);
    assert_eq!(fs(&runner, &tool, ".".to_string()), Ok("trivy fs .".to_string()));
}

#[test]
fn repo_mode_runs_the_repository_subcommand() {
    let tool = trivy(|_: &str| Ok(()));
    let runner = CommandRunner::new(echo);
    assert_eq!(
        repo(&runner, &tool, "https://example.org/x.git".to_string()),
        Ok("trivy repository https://example.org/x.git".to_string())
    );
}

#[test]
fn image_mode_runs_the_image_subcommand() {
    let tool = trivy(|_: &str| Ok(()));
    let runner = CommandRunner::new(echo);
    assert_eq!(image(&runner, &tool, "alpine:3.19".to_string()), Ok("trivy image alpine:3.19".to_string()));
}

#[test]
fn sbom_mode_runs_the_sbom_subcommand() {
    let tool = trivy(|_: &str| Ok(()));
    let runner = CommandRunner::new(echo);
    assert_eq!(sbom(&runner, &tool, "./bom.json".to_string()), Ok("trivy sbom ./bom.json".to_string()));
}

#[test]
fn rootfs_mode_runs_the_rootfs_subcommand() {
    let tool = trivy(|_: &str| Ok(()));
    let runner = CommandRunner::new(echo);
    assert_eq!(rootfs(&runner, &tool, "/mnt".to_string()), Ok("trivy rootfs /mnt".to_string()));
}

#[test]
fn a_mode_passes_empty_arguments_as_an_empty_token() {
    let seen = RefCell::new(Vec::new());
    let tool = trivy(|_: &str| Ok(()));
    let runner = CommandRunner::new(|argv: &[String]| {
        seen.borrow_mut().push(argv.to_vec());
        echo(argv)
    });
    assert_eq!(fs(&runner, &tool, String::new()), Ok("trivy fs ".to_string()));
    assert_eq!(*seen.borrow(), vec![strings(&["trivy", "fs", ""])]);
}

#[test]
fn scan_runs_any_subcommand() {
    let tool = trivy(|_: &str| Ok(()));
    let runner = CommandRunner::new(echo);
    assert_eq!(
        scan(&runner, &tool, "kubernetes", "--report summary".to_string()),
        Ok("trivy kubernetes --report summary".to_string())
    );
}

#[test]
fn scan_without_a_subcommand_passes_the_arguments_alone() {
    let tool = trivy(|_: &str| Ok(()));
    let runner = CommandRunner::new(echo);
    assert_eq!(scan(&runner, &tool, "", "--help".to_string()), Ok("trivy --help".to_string()));
}

#[test]
fn a_mode_reports_the_exit_code_of_a_failed_scan() {
    let tool = trivy(|_: &str| Ok(()));
    let runner = CommandRunner::new(|_: &[String]| {
        Ok(InvocationResult { stdout: "CRITICAL: 1".to_string(), exit_code: 1 })
    });
    assert_eq!(image(&runner, &tool, "alpine".to_string()), Err(ExecError::NonZeroExit(1)));
}

#[test]
fn a_mode_does_not_spawn_after_a_failed_install() {
    let spawned = Cell::new(0u32);
    let tool = trivy(|_: &str| Err(InstallError::Unavailable));
    let runner = CommandRunner::new(|argv: &[String]| {
        spawned.set(spawned.get() + 1);
        echo(argv)
    });
    assert_eq!(setup(&runner, &tool), Err(ExecError::NotFound));
    assert_eq!(sbom(&runner, &tool, "x".to_string()), Err(ExecError::NotFound));
    assert_eq!(spawned.get(), 0);
}

#[test]
fn a_mode_reports_a_failure_to_spawn() {
    let tool = trivy(|_: &str| Ok(()));
    let runner = CommandRunner::new(|_: &[String]| Err(SpawnError::IOFailure));
    assert_eq!(rootfs(&runner, &tool, "/".to_string()), Err(ExecError::IOFailure));
}
