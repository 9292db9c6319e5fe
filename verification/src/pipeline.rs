use vstd::prelude::*;
use vstd::string::StringExecFns;
use crate::errors::{BinderError, HookCommandError};
use crate::repository::{spec_is_checkout_plan, CheckoutPlan, Repository};

verus! {

/// The compiler settings the orchestration touches: the project root the
/// external compiler works in, and the directory it writes artifacts to.
#[derive(Debug, Clone)]
pub struct CompilerConfig {
    pub root: String,
    pub artifacts: String,
}

/// The configuration handed to the external compiler: the caller's settings
/// with the resolved project root substituted, and the artifact directory
/// redirected when artifacts are kept.
pub open spec fn spec_effective_config(
    c: CompilerConfig,
    root: String,
    keep: Option<String>,
) -> CompilerConfig {
    CompilerConfig {
        root,
        artifacts: match keep {
            Some(dir) => dir,
            None => c.artifacts,
        },
    }
}

/// Substitutes the resolved root into a configuration and redirects its
/// artifact directory when one is to be kept.
pub fn effective_config(c: &CompilerConfig, root: String, keep: &Option<String>) -> (r:
    CompilerConfig)
    ensures
        r == spec_effective_config(*c, root, *keep),
{
    let artifacts = match keep {
        Some(dir) => dir.clone(),
        None => c.artifacts.clone(),
    };
    CompilerConfig { root, artifacts }
}

/// What the external compiler reported: whether it found errors (warnings
/// are not fatal), its diagnostics verbatim and in full, and where it wrote
/// the artifacts.
#[derive(Debug, Clone)]
pub struct CompileOutcome {
    pub has_errors: bool,
    pub diagnostics: String,
    pub artifacts: String,
}

/// Where to find the source project.
#[derive(Debug, Clone)]
pub enum SourceLocation {
    /// An on-disk project directory; resolving it is a no-op.
    Local(String),
    /// A remote repository to check out and extract first.
    Remote(Repository),
}

/// What resolving a source location comes to.
#[derive(Debug, Clone)]
pub enum SourceResolution {
    /// The project root is already on disk.
    Ready(String),
    /// A checkout and extraction must run first, as this plan says; the
    /// root is then the plan's destination directory.
    NeedsCheckout(CheckoutPlan),
}

impl SourceLocation {
    /// Returns the project root for a local path, and the full checkout
    /// plan for a remote repository.
    pub fn get(&self) -> (r: SourceResolution)
        ensures
            (match *self {
                SourceLocation::Local(p) => r matches SourceResolution::Ready(root) && root == p,
                SourceLocation::Remote(repo) => r matches SourceResolution::NeedsCheckout(plan)
                    && spec_is_checkout_plan(repo, plan),
            }),
    {
        match self {
            SourceLocation::Local(p) => SourceResolution::Ready(p.clone()),
            SourceLocation::Remote(repo) => SourceResolution::NeedsCheckout(repo.checkout()),
        }
    }
}

/// Where the generation pipeline stands. The stages run in a fixed order
/// and the first failure aborts all later ones.
#[derive(Debug, Clone)]
pub enum PipelineState {
    /// Obtain the project root: checkout and extraction for remote sources.
    Resolve,
    /// Run the hook command at position `next` inside `root`; hooks run in
    /// the order they were added, strictly one after another.
    RunHooks { root: String, next: usize },
    /// Hand the root to the external compiler.
    Compile { root: String },
    /// The compiler's report held no errors: hand the artifacts to the
    /// external binding generator.
    GenerateBindings { artifacts: String },
    /// Write the generated bundle to the bindings module path.
    WriteOutput,
    /// Every stage succeeded; the bundle is written.
    Done,
    /// A stage failed; nothing after it runs.
    Failed(BinderError),
}

/// What the surrounding process reports back to the pipeline.
#[derive(Debug)]
pub enum PipelineEvent {
    /// No outside work: the machine advances by itself.
    Tick,
    /// Source resolution ended with the project root, or failed.
    Resolved(Result<String, BinderError>),
    /// The pending hook command exited with this status, or could not be
    /// started.
    HookExited(Result<i32, String>),
    /// The external compiler ran and reported, or could not be run.
    Compiled(Result<CompileOutcome, String>),
    /// The external binding generator finished, or failed.
    BindingsGenerated(Result<(), String>),
    /// The bundle was written, or the write failed.
    OutputWritten(Result<(), String>),
}

/// What the surrounding process must do next for a given stage.
#[derive(Debug)]
pub enum PipelineAction {
    /// Resolve the configured source location to a project root.
    ResolveSource,
    /// Run this command synchronously in `dir`, output inherited, and
    /// report its exit status.
    RunHook { dir: String, program: String, args: Vec<String> },
    /// Invoke the external compiler under `root`. With a configuration
    /// here, use it as given — the root is already substituted and the
    /// artifact directory already redirected (create that directory if
    /// missing); with none, load the project's own configuration rooted at
    /// `root` first and redirect its artifacts the same way.
    CompileProject { root: String, config: Option<CompilerConfig>, artifacts_override: Option<String> },
    /// Generate bindings from the compiler's artifacts, including
    /// deployable bytecode exactly when asked.
    GenerateBindings { artifacts: String, deployable: bool },
    /// Write the generated bundle under this module directory.
    WriteBindings { module: String },
    /// Feed `Tick`: the machine advances without outside work.
    Advance,
    /// Terminal: nothing is left to do.
    Stop,
}

/// All the options of one generation run. Built fluently, consumed by one
/// pipeline run, immutable during it.
#[derive(Debug, Clone)]
pub struct Binder {
    /// Where to find the project.
    pub location: SourceLocation,
    /// Whether bindings include bytecode, making the contracts deployable.
    pub deployable: bool,
    /// Where artifacts are kept; with `None` they stay in their ephemeral
    /// location and are cleaned up.
    pub keep_artifacts: Option<String>,
    /// Hook commands to run in the project before compiling, in this order.
    pub commands: Vec<Vec<String>>,
    /// The compiler settings; with `None`, the project's own configuration
    /// is loaded from the resolved root.
    pub config: Option<CompilerConfig>,
    /// Where the bindings are written; `None` means the conventional
    /// `src/contracts`.
    pub bindings: Option<String>,
}

/// One step of the pipeline: where the machine moves on this event. Done
/// and Failed absorb everything — after a failure no hook and no stage ever
/// runs again — and an event that does not belong to the current stage
/// moves nothing.
pub open spec fn spec_advance(b: Binder, s: PipelineState, e: PipelineEvent) -> PipelineState {
    match (s, e) {
        (PipelineState::Done, _) => PipelineState::Done,
        (PipelineState::Failed(err), _) => PipelineState::Failed(err),
        (PipelineState::Resolve, PipelineEvent::Resolved(res)) => match res {
            Ok(root) => PipelineState::RunHooks { root, next: 0 },
            Err(err) => PipelineState::Failed(err),
        },
        (PipelineState::RunHooks { root, next }, PipelineEvent::Tick) => {
            if next >= b.commands@.len() {
                PipelineState::Compile { root }
            } else if b.commands@[next as int]@.len() == 0 {
                PipelineState::Failed(
                    BinderError::Hook(HookCommandError::EmptyCommand { index: next }),
                )
            } else {
                PipelineState::RunHooks { root, next }
            }
        },
        (PipelineState::RunHooks { root, next }, PipelineEvent::HookExited(res)) => {
            if next >= b.commands@.len() || b.commands@[next as int]@.len() == 0 {
                PipelineState::RunHooks { root, next }
            } else {
                match res {
                    Ok(status) => if status == 0 {
                        PipelineState::RunHooks { root, next: (next + 1) as usize }
                    } else {
                        PipelineState::Failed(
                            BinderError::Hook(
                                HookCommandError::NonZeroExit { index: next, status },
                            ),
                        )
                    },
                    Err(message) => PipelineState::Failed(
                        BinderError::Hook(HookCommandError::Spawn { index: next, message }),
                    ),
                }
            }
        },
        (PipelineState::Compile { root: _ }, PipelineEvent::Compiled(res)) => match res {
            Ok(out) => if out.has_errors {
                PipelineState::Failed(BinderError::Compile { diagnostics: out.diagnostics })
            } else {
                PipelineState::GenerateBindings { artifacts: out.artifacts }
            },
            Err(message) => PipelineState::Failed(BinderError::Compile { diagnostics: message }),
        },
        (PipelineState::GenerateBindings { artifacts: _ }, PipelineEvent::BindingsGenerated(res)) => match res {
            Ok(_) => PipelineState::WriteOutput,
            Err(message) => PipelineState::Failed(BinderError::BindingGeneration { message }),
        },
        (PipelineState::WriteOutput, PipelineEvent::OutputWritten(res)) => match res {
            Ok(_) => PipelineState::Done,
            Err(message) => PipelineState::Failed(BinderError::Write { message }),
        },
        (other, _) => other,
    }
}

/// Where the machine ends after this whole run of events, in order.
pub open spec fn spec_run(b: Binder, s: PipelineState, events: Seq<PipelineEvent>) -> PipelineState
    decreases events.len(),
{
    if events.len() == 0 {
        s
    } else {
        spec_run(b, spec_advance(b, s, events[0]), events.drop_first())
    }
}

impl Binder {
    /// A new run for the given location: deployable bindings, artifacts
    /// cleaned up, no hook commands, the project's own compiler
    /// configuration, bindings at the conventional path.
    pub fn new(location: SourceLocation) -> (r: Self)
        ensures
            r.location == location,
            r.deployable == true,
            r.keep_artifacts is None,
            r.commands@.len() == 0,
            r.config is None,
            r.bindings is None,
    {
        Binder {
            location,
            deployable: true,
            keep_artifacts: None,
            commands: Vec::new(),
            config: None,
            bindings: None,
        }
    }

    /// Adds a command to run in the project before generating the bindings,
    /// after every command added before it.
    pub fn command(self, cmd: Vec<String>) -> (r: Self)
        ensures
            r.commands@ == self.commands@.push(cmd),
            r.location == self.location,
            r.deployable == self.deployable,
            r.keep_artifacts == self.keep_artifacts,
            r.config == self.config,
            r.bindings == self.bindings,
    {
        let mut commands = self.commands;
        commands.push(cmd);
        Binder { commands, ..self }
    }

    /// Whether the generated bindings include the bytecode that makes the
    /// contracts deployable.
    pub fn set_deployable(self, deployable: bool) -> (r: Self)
        ensures
            r == (Binder { deployable, ..self }),
    {
        Binder { deployable, ..self }
    }

    /// Keeps the compiler's artifacts at this path instead of cleaning
    /// them up.
    pub fn keep_artifacts(self, keep_artifacts: String) -> (r: Self)
        ensures
            r == (Binder { keep_artifacts: Some(keep_artifacts), ..self }),
    {
        Binder { keep_artifacts: Some(keep_artifacts), ..self }
    }

    /// Sets the path the bindings are written to.
    pub fn bindings(self, bindings: String) -> (r: Self)
        ensures
            r == (Binder { bindings: Some(bindings), ..self }),
    {
        Binder { bindings: Some(bindings), ..self }
    }

    /// Sets the compiler settings used to compile the project.
    pub fn config(self, config: CompilerConfig) -> (r: Self)
        ensures
            r == (Binder { config: Some(config), ..self }),
    {
        Binder { config: Some(config), ..self }
    }

    /// The module directory the bundle is written to: the configured
    /// bindings path, or the conventional `src/contracts` when none was set.
    pub fn bindings_module(&self) -> (r: String)
        ensures
            (match self.bindings {
                Some(m) => r == m,
                None => r@ == "src/contracts"@,
            }),
    {
        match &self.bindings {
            Some(m) => m.clone(),
            None => String::from_str("src/contracts"),
        }
    }

    /// One transition of the pipeline.
    pub fn advance(&self, s: PipelineState, e: PipelineEvent) -> (r: PipelineState)
        ensures
            r == spec_advance(*self, s, e),
    {
        match (s, e) {
            (PipelineState::Done, _) => PipelineState::Done,
            (PipelineState::Failed(err), _) => PipelineState::Failed(err),
            (PipelineState::Resolve, PipelineEvent::Resolved(res)) => match res {
                Ok(root) => PipelineState::RunHooks { root, next: 0 },
                Err(err) => PipelineState::Failed(err),
            },
            (PipelineState::RunHooks { root, next }, PipelineEvent::Tick) => {
                if next >= self.commands.len() {
                    PipelineState::Compile { root }
                } else if self.commands[next].len() == 0 {
                    PipelineState::Failed(
                        BinderError::Hook(HookCommandError::EmptyCommand { index: next }),
                    )
                } else {
                    PipelineState::RunHooks { root, next }
                }
            },
            (PipelineState::RunHooks { root, next }, PipelineEvent::HookExited(res)) => {
                if next >= self.commands.len() || self.commands[next].len() == 0 {
                    PipelineState::RunHooks { root, next }
                } else {
                    match res {
                        Ok(status) => if status == 0 {
                            PipelineState::RunHooks { root, next: next + 1 }
                        } else {
                            PipelineState::Failed(
                                BinderError::Hook(
                                    HookCommandError::NonZeroExit { index: next, status },
                                ),
                            )
                        },
                        Err(message) => PipelineState::Failed(
                            BinderError::Hook(HookCommandError::Spawn { index: next, message }),
                        ),
                    }
                }
            },
            (PipelineState::Compile { root: _ }, PipelineEvent::Compiled(res)) => match res {
                Ok(out) => if out.has_errors {
                    PipelineState::Failed(BinderError::Compile { diagnostics: out.diagnostics })
                } else {
                    PipelineState::GenerateBindings { artifacts: out.artifacts }
                },
                Err(message) => PipelineState::Failed(
                    BinderError::Compile { diagnostics: message },
                ),
            },
            (
                PipelineState::GenerateBindings { artifacts: _ },
                PipelineEvent::BindingsGenerated(res),
            ) => match res {
                Ok(_) => PipelineState::WriteOutput,
                Err(message) => PipelineState::Failed(
                    BinderError::BindingGeneration { message },
                ),
            },
            (PipelineState::WriteOutput, PipelineEvent::OutputWritten(res)) => match res {
                Ok(_) => PipelineState::Done,
                Err(message) => PipelineState::Failed(BinderError::Write { message }),
            },
            (other, _) => other,
        }
    }

    /// What the surrounding process must do in this state. All decisions —
    /// which command, in which directory, with which configuration, to
    /// which module path — are made here; a command with no words at all
    /// yields `Advance`, and the machine then fails without spawning
    /// anything.
    pub fn action(&self, state: &PipelineState) -> (r: PipelineAction)
        ensures
            (match *state {
                PipelineState::Resolve => r is ResolveSource,
                PipelineState::RunHooks { root, next } => {
                    if next >= self.commands@.len() || self.commands@[next as int]@.len() == 0 {
                        r is Advance
                    } else {
                        r matches PipelineAction::RunHook { dir, program, args }
                            && dir == root
                            && program == self.commands@[next as int]@[0]
                            && args@ == self.commands@[next as int]@.drop_first()
                    }
                },
                PipelineState::Compile { root } => {
                    r matches PipelineAction::CompileProject { root: r2, config, artifacts_override }
                        && r2 == root
                        && (match self.config {
                            Some(c) => config == Some(
                                spec_effective_config(c, root, self.keep_artifacts),
                            ),
                            None => config is None,
                        })
                        && artifacts_override == self.keep_artifacts
                },
                PipelineState::GenerateBindings { artifacts } => {
                    r matches PipelineAction::GenerateBindings { artifacts: a2, deployable }
                        && a2 == artifacts
                        && deployable == self.deployable
                },
                PipelineState::WriteOutput => {
                    r matches PipelineAction::WriteBindings { module }
                        && (match self.bindings {
                            Some(m) => module == m,
                            None => module@ == "src/contracts"@,
                        })
                },
                PipelineState::Done => r is Stop,
                PipelineState::Failed(_) => r is Stop,
            }),
    {
        match state {
            PipelineState::Resolve => PipelineAction::ResolveSource,
            PipelineState::RunHooks { root, next } => {
                let next = *next;
                if next >= self.commands.len() || self.commands[next].len() == 0 {
                    PipelineAction::Advance
                } else {
                    let cmd = &self.commands[next];
                    let program = cmd[0].clone();
                    let mut args: Vec<String> = Vec::new();
                    let mut j: usize = 1;
                    while j < cmd.len()
                        invariant
                            1 <= j <= cmd@.len(),
                            args@ == cmd@.subrange(1, j as int),
                        decreases cmd@.len() - j,
                    {
                        args.push(cmd[j].clone());
                        proof {
                            assert(cmd@.subrange(1, j as int).push(cmd@[j as int]) =~= cmd@
                                .subrange(1, j as int + 1));
                        }
                        j = j + 1;
                    }
                    proof {
                        assert(cmd@.subrange(1, cmd@.len() as int) =~= cmd@.drop_first());
                    }
                    PipelineAction::RunHook { dir: root.clone(), program, args }
                }
            },
            PipelineState::Compile { root } => {
                let config = match &self.config {
                    Some(c) => Some(effective_config(c, root.clone(), &self.keep_artifacts)),
                    None => None,
                };
                let artifacts_override = match &self.keep_artifacts {
                    Some(p) => Some(p.clone()),
                    None => None,
                };
                PipelineAction::CompileProject { root: root.clone(), config, artifacts_override }
            },
            PipelineState::GenerateBindings { artifacts } => {
                PipelineAction::GenerateBindings {
                    artifacts: artifacts.clone(),
                    deployable: self.deployable,
                }
            },
            PipelineState::WriteOutput => {
                PipelineAction::WriteBindings { module: self.bindings_module() }
            },
            PipelineState::Done => PipelineAction::Stop,
            PipelineState::Failed(_) => PipelineAction::Stop,
        }
    }

    /// Replays the whole pipeline over the outcomes the collaborators
    /// reported, in order, and returns where it ended: `Done` exactly when
    /// every stage succeeded, and otherwise the first failure, which no
    /// later event undoes.
    pub fn generate(&self, events: Vec<PipelineEvent>) -> (r: PipelineState)
        ensures
            r == spec_run(*self, PipelineState::Resolve, events@),
    {
        let ghost all = events@;
        let mut rest = events;
        let mut state = PipelineState::Resolve;
        while rest.len() > 0
            invariant
                spec_run(*self, state, rest@) == spec_run(
                    *self,
                    PipelineState::Resolve,
                    all,
                ),
            decreases rest@.len(),
        {
            proof {
                assert(rest@.remove(0) =~= rest@.drop_first());
            }
            let e = rest.remove(0);
            state = self.advance(state, e);
        }
        state
    }
}

/// Fail-fast is absolute: once the pipeline has failed, no run of further
/// events moves it anywhere else. No hook after a failing one runs, and no
/// later stage does either.
pub proof fn lemma_failed_is_absorbing(b: Binder, err: BinderError, events: Seq<PipelineEvent>)
    ensures
        spec_run(b, PipelineState::Failed(err), events) == PipelineState::Failed(err),
    decreases events.len(),
{
    if events.len() > 0 {
        lemma_failed_is_absorbing(b, err, events.drop_first());
    }
}

/// Hook ordering and fail-fast: when the pending hook exits with a non-zero
/// status, the pipeline fails at that hook at once, and whatever events
/// follow, it stays failed — the hooks after it and the compile stage never
/// run.
pub proof fn lemma_hook_failure_aborts(
    b: Binder,
    root: String,
    next: usize,
    status: i32,
    later: Seq<PipelineEvent>,
)
    requires
        next < b.commands@.len(),
        b.commands@[next as int]@.len() > 0,
        status != 0,
    ensures
        spec_advance(b, PipelineState::RunHooks { root, next }, PipelineEvent::HookExited(Ok(status)))
            == PipelineState::Failed(
            BinderError::Hook(HookCommandError::NonZeroExit { index: next, status }),
        ),
        spec_run(
            b,
            spec_advance(
                b,
                PipelineState::RunHooks { root, next },
                PipelineEvent::HookExited(Ok(status)),
            ),
            later,
        ) == PipelineState::Failed(
            BinderError::Hook(HookCommandError::NonZeroExit { index: next, status }),
        ),
{
    lemma_failed_is_absorbing(
        b,
        BinderError::Hook(HookCommandError::NonZeroExit { index: next, status }),
        later,
    );
}

} // verus!
