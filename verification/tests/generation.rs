use binder::errors::{BinderError, FetchError, HookCommandError, ResolutionError};
use binder::pipeline::{
    effective_config, Binder, CompileOutcome, CompilerConfig, PipelineAction, PipelineEvent,
    PipelineState, SourceLocation, SourceResolution,
};

fn local(path: &str) -> SourceLocation {
    SourceLocation::Local(path.to_string())
}

fn good_compile() -> PipelineEvent {
    PipelineEvent::Compiled(Ok(CompileOutcome {
        has_errors: false,
        diagnostics: String::new(),
        artifacts: "artifacts".to_string(),
    }))
}

#[test]
fn local_source_resolves_in_place() {
    let loc = local("./project");
    assert!(matches!(loc.get(), SourceResolution::Ready(ref p) if p == "./project"));
}

#[test]
fn pipeline_happy_path_writes_default_module() {
    let b = Binder::new(local("./project")).command(vec!["true".to_string()]);
    let events = vec![
        PipelineEvent::Resolved(Ok("./project".to_string())),
        PipelineEvent::HookExited(Ok(0)),
        PipelineEvent::Tick,
        good_compile(),
        PipelineEvent::BindingsGenerated(Ok(())),
        PipelineEvent::OutputWritten(Ok(())),
    ];
    assert!(matches!(b.generate(events), PipelineState::Done));
    // The bundle lands under the conventional module directory.
    assert!(matches!(
        b.action(&PipelineState::WriteOutput),
        PipelineAction::WriteBindings { ref module } if module == "src/contracts"
    ));
}

#[test]
fn empty_hook_command_fails_before_compiling() {
    let b = Binder::new(local("./project")).command(vec![]);
    let events = vec![
        PipelineEvent::Resolved(Ok("./project".to_string())),
        PipelineEvent::Tick,
        good_compile(),
    ];
    assert!(matches!(
        b.generate(events),
        PipelineState::Failed(BinderError::Hook(HookCommandError::EmptyCommand { index: 0 }))
    ));
}

#[test]
fn failing_hook_stops_the_pipeline() {
    let b = Binder::new(local("./project"))
        .command(vec!["false".to_string()])
        .command(vec!["echo".to_string(), "b".to_string()]);

    // The first hook is owed first, in order.
    let s = PipelineState::RunHooks { root: "./project".to_string(), next: 0 };
    assert!(matches!(
        b.action(&s),
        PipelineAction::RunHook { ref dir, ref program, ref args }
            if dir == "./project" && program == "false" && args.is_empty()
    ));

    // It exits non-zero: the pipeline fails at it.
    let failed = b.advance(s, PipelineEvent::HookExited(Ok(1)));
    assert!(matches!(
        failed,
        PipelineState::Failed(BinderError::Hook(HookCommandError::NonZeroExit { index: 0, status: 1 }))
    ));

    // Whatever is reported afterwards, the second hook and the compiler
    // never run: the failure absorbs every later event.
    let still_failed = b.advance(failed, good_compile());
    assert!(matches!(
        still_failed,
        PipelineState::Failed(BinderError::Hook(HookCommandError::NonZeroExit { index: 0, status: 1 }))
    ));
    assert!(matches!(b.action(&still_failed), PipelineAction::Stop));
}

#[test]
fn hooks_run_in_the_order_added() {
    let b = Binder::new(local("./project"))
        .command(vec!["first".to_string()])
        .command(vec!["second".to_string(), "arg".to_string()]);
    let s0 = PipelineState::RunHooks { root: "./project".to_string(), next: 0 };
    assert!(matches!(
        b.action(&s0),
        PipelineAction::RunHook { ref program, .. } if program == "first"
    ));
    let s1 = b.advance(s0, PipelineEvent::HookExited(Ok(0)));
    assert!(matches!(s1, PipelineState::RunHooks { ref root, next: 1 } if root == "./project"));
    assert!(matches!(
        b.action(&s1),
        PipelineAction::RunHook { ref program, ref args, .. }
            if program == "second" && args == &vec!["arg".to_string()]
    ));
    let s2 = b.advance(s1, PipelineEvent::HookExited(Ok(0)));
    let s3 = b.advance(s2, PipelineEvent::Tick);
    assert!(matches!(s3, PipelineState::Compile { ref root } if root == "./project"));
}

#[test]
fn compiler_errors_abort_with_diagnostics() {
    let b = Binder::new(local("./project"));
    let events = vec![
        PipelineEvent::Resolved(Ok("./project".to_string())),
        PipelineEvent::Tick,
        PipelineEvent::Compiled(Ok(CompileOutcome {
            has_errors: true,
            diagnostics: "Compiled with errors".to_string(),
            artifacts: "artifacts".to_string(),
        })),
    ];
    assert!(matches!(
        b.generate(events),
        PipelineState::Failed(BinderError::Compile { ref diagnostics })
            if diagnostics == "Compiled with errors"
    ));
}

#[test]
fn spawn_write_and_generation_failures_are_typed() {
    let b = Binder::new(local("./project")).command(vec!["missing".to_string()]);
    let spawn = b.generate(vec![
        PipelineEvent::Resolved(Ok("./project".to_string())),
        PipelineEvent::HookExited(Err("no such program".to_string())),
    ]);
    assert!(matches!(
        spawn,
        PipelineState::Failed(BinderError::Hook(HookCommandError::Spawn { index: 0, ref message }))
            if message == "no such program"
    ));

    let plain = Binder::new(local("./project"));
    let genfail = plain.generate(vec![
        PipelineEvent::Resolved(Ok("./project".to_string())),
        PipelineEvent::Tick,
        good_compile(),
        PipelineEvent::BindingsGenerated(Err("abi".to_string())),
    ]);
    assert!(matches!(
        genfail,
        PipelineState::Failed(BinderError::BindingGeneration { ref message }) if message == "abi"
    ));

    let wrfail = plain.generate(vec![
        PipelineEvent::Resolved(Ok("./project".to_string())),
        PipelineEvent::Tick,
        good_compile(),
        PipelineEvent::BindingsGenerated(Ok(())),
        PipelineEvent::OutputWritten(Err("disk full".to_string())),
    ]);
    assert!(matches!(
        wrfail,
        PipelineState::Failed(BinderError::Write { ref message }) if message == "disk full"
    ));
}

#[test]
fn resolution_failures_abort_before_any_hook() {
    let b = Binder::new(local("./project")).command(vec!["true".to_string()]);
    let auth = b.generate(vec![PipelineEvent::Resolved(Err(BinderError::Fetch(
        FetchError::AuthRequired,
    )))]);
    assert!(matches!(
        auth,
        PipelineState::Failed(BinderError::Fetch(FetchError::AuthRequired))
    ));
    let bad_path = b.generate(vec![PipelineEvent::Resolved(Err(BinderError::Resolution(
        ResolutionError::InvalidLocalPath("./missing".to_string()),
    )))]);
    assert!(matches!(
        bad_path,
        PipelineState::Failed(BinderError::Resolution(ResolutionError::InvalidLocalPath(ref p)))
            if p == "./missing"
    ));
}

#[test]
fn compile_action_substitutes_root_and_redirects_artifacts() {
    let b = Binder::new(local("./project"))
        .config(CompilerConfig { root: "ignored".to_string(), artifacts: "out".to_string() })
        .keep_artifacts("./kept".to_string())
        .set_deployable(false);
    let action = b.action(&PipelineState::Compile { root: "./resolved".to_string() });
    match action {
        PipelineAction::CompileProject { root, config, artifacts_override } => {
            assert_eq!(root, "./resolved");
            let config = config.expect("an explicit configuration is passed through");
            assert_eq!(config.root, "./resolved");
            assert_eq!(config.artifacts, "./kept");
            assert_eq!(artifacts_override, Some("./kept".to_string()));
        }
        other => panic!("expected a compile action, got {:?}", other),
    }
    assert!(matches!(
        b.action(&PipelineState::GenerateBindings { artifacts: "a".to_string() }),
        PipelineAction::GenerateBindings { ref artifacts, deployable }
            if artifacts == "a" && !deployable
    ));
}

#[test]
fn effective_config_is_exact() {
    let c = CompilerConfig { root: "old".to_string(), artifacts: "out".to_string() };
    let kept = effective_config(&c, "new".to_string(), &Some("kept".to_string()));
    assert_eq!(kept.root, "new");
    assert_eq!(kept.artifacts, "kept");
    let plain = effective_config(&c, "new".to_string(), &None);
    assert_eq!(plain.root, "new");
    assert_eq!(plain.artifacts, "out");
}

#[test]
fn binder_setters_accumulate() {
    let b = Binder::new(local("./p"))
        .command(vec!["yarn".to_string(), "install".to_string()])
        .bindings("./bindings".to_string());
    assert_eq!(b.commands.len(), 1);
    assert_eq!(b.commands[0], vec!["yarn".to_string(), "install".to_string()]);
    assert!(b.deployable);
    assert!(matches!(
        b.action(&PipelineState::WriteOutput),
        PipelineAction::WriteBindings { ref module } if module == "./bindings"
    ));
}
