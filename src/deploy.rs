//! Deployment of one built app as a step machine. The machine decides; the
//! caller performs each filesystem action it asks for and answers with one
//! boolean: whether the probed path is there, or whether the action succeeded.
use vstd::prelude::*;
use crate::paths::{join, join_path, resolve_target_name, target_name};

verus! {

/// Where a deployment stands: which answer it waits for.
#[derive(Clone, Copy, Debug, PartialEq, Eq, Structural)]
pub enum DeployPhase {
    /// Waits to learn whether the multi-project `apps` level is a directory.
    Layout,
    /// Waits to learn whether an earlier deployment is in place.
    Existing,
    /// Waits for the removal of the earlier deployment.
    Removing,
    /// Waits to learn whether the build output is there.
    Source,
    /// Waits for the build output to be moved into place.
    Moving,
    /// Done: nothing more to do.
    Finished,
}

/// Why a deployment failed, with the path concerned.
#[derive(Clone, Debug, PartialEq, Eq)]
pub enum DeployError {
    /// The build output directory is absent.
    SourceNotFound(String),
    /// The earlier deployment could not be removed.
    DeleteFailed(String),
    /// The build output could not be moved into place.
    MoveFailed(String),
}

/// What the caller is asked to do next.
#[derive(Debug, PartialEq, Eq)]
pub enum DeployAction {
    /// Tell whether this path is a directory.
    CheckDir(String),
    /// Tell whether this path exists.
    CheckExists(String),
    /// Remove this directory recursively; tell whether that succeeded.
    Remove(String),
    /// Move the first directory, whole, into the second; tell whether that succeeded.
    Move(String, String),
    /// The deployment is over, with this outcome.
    Finish(Result<(), DeployError>),
}

/// A deployment failure over character sequences.
pub enum FailureModel {
    SourceNotFound(Seq<char>),
    DeleteFailed(Seq<char>),
    MoveFailed(Seq<char>),
}

/// An action over character sequences.
pub enum ActionModel {
    CheckDir(Seq<char>),
    CheckExists(Seq<char>),
    Remove(Seq<char>),
    Move(Seq<char>, Seq<char>),
    Done,
    Failed(FailureModel),
}

impl View for DeployError {
    type V = FailureModel;

    open spec fn view(&self) -> FailureModel {
        match self {
            DeployError::SourceNotFound(p) => FailureModel::SourceNotFound(p@),
            DeployError::DeleteFailed(p) => FailureModel::DeleteFailed(p@),
            DeployError::MoveFailed(p) => FailureModel::MoveFailed(p@),
        }
    }
}

impl View for DeployAction {
    type V = ActionModel;

    open spec fn view(&self) -> ActionModel {
        match self {
            DeployAction::CheckDir(p) => ActionModel::CheckDir(p@),
            DeployAction::CheckExists(p) => ActionModel::CheckExists(p@),
            DeployAction::Remove(p) => ActionModel::Remove(p@),
            DeployAction::Move(s, d) => ActionModel::Move(s@, d@),
            DeployAction::Finish(Ok(())) => ActionModel::Done,
            DeployAction::Finish(Err(e)) => ActionModel::Failed(e@),
        }
    }
}

/// A deployment in progress.
pub struct Deployment {
    pub phase: DeployPhase,
    /// The build output root: the frontend root joined with the build subdirectory.
    pub build_dir: String,
    /// The name the app is deployed under.
    pub target: String,
    pub destination_root: String,
    pub separator: char,
    /// The build output directory of the app, once the layout is known.
    pub source: String,
}

/// A deployment over character sequences.
pub struct DeploymentModel {
    pub phase: DeployPhase,
    pub build_dir: Seq<char>,
    pub target: Seq<char>,
    pub destination_root: Seq<char>,
    pub separator: char,
    pub source: Seq<char>,
}

impl View for Deployment {
    type V = DeploymentModel;

    open spec fn view(&self) -> DeploymentModel {
        DeploymentModel {
            phase: self.phase,
            build_dir: self.build_dir@,
            target: self.target@,
            destination_root: self.destination_root@,
            separator: self.separator,
            source: self.source@,
        }
    }
}

/// The `apps` level that only multi-project builds have.
pub open spec fn apps_dir(m: DeploymentModel) -> Seq<char> {
    join(m.build_dir, seq!['a', 'p', 'p', 's'], m.separator)
}

/// Where the app is deployed: the destination root joined with the target name.
pub open spec fn installed_path(m: DeploymentModel) -> Seq<char> {
    join(m.destination_root, m.target, m.separator)
}

/// The build output of the app, below the `apps` level when `nested`.
pub open spec fn source_path(m: DeploymentModel, nested: bool) -> Seq<char> {
    if nested {
        join(apps_dir(m), m.target, m.separator)
    } else {
        join(m.build_dir, m.target, m.separator)
    }
}

/// A deployment that has just begun, and its first action: probe the layout.
pub open spec fn start_model(
    fe_path: Seq<char>,
    build_subdir: Seq<char>,
    destination_root: Seq<char>,
    app_name: Seq<char>,
    sep: char,
) -> (DeploymentModel, ActionModel) {
    let m = DeploymentModel {
        phase: DeployPhase::Layout,
        build_dir: join(fe_path, build_subdir, sep),
        target: target_name(fe_path, app_name, sep),
        destination_root,
        separator: sep,
        source: Seq::empty(),
    };
    (m, ActionModel::CheckDir(apps_dir(m)))
}

/// `m` moved to `phase`.
pub open spec fn with_phase(m: DeploymentModel, phase: DeployPhase) -> DeploymentModel {
    DeploymentModel { phase, ..m }
}

/// The next state and action of an unfinished deployment, given the answer to
/// its last action. An earlier deployment is removed before the build output is
/// looked for, so a missing build output leaves the destination without the app.
pub open spec fn step_model(m: DeploymentModel, answer: bool) -> (DeploymentModel, ActionModel) {
    match m.phase {
        DeployPhase::Layout => {
            let n = DeploymentModel {
                phase: DeployPhase::Existing,
                source: source_path(m, answer),
                ..m
            };
            (n, ActionModel::CheckExists(installed_path(m)))
        },
        DeployPhase::Existing => {
            if answer {
                (with_phase(m, DeployPhase::Removing), ActionModel::Remove(installed_path(m)))
            } else {
                (with_phase(m, DeployPhase::Source), ActionModel::CheckExists(m.source))
            }
        },
        DeployPhase::Removing => {
            if answer {
                (with_phase(m, DeployPhase::Source), ActionModel::CheckExists(m.source))
            } else {
                (
                    with_phase(m, DeployPhase::Finished),
                    ActionModel::Failed(FailureModel::DeleteFailed(installed_path(m))),
                )
            }
        },
        DeployPhase::Source => {
            if answer {
                (with_phase(m, DeployPhase::Moving), ActionModel::Move(m.source, m.destination_root))
            } else {
                (
                    with_phase(m, DeployPhase::Finished),
                    ActionModel::Failed(FailureModel::SourceNotFound(m.source)),
                )
            }
        },
        DeployPhase::Moving => {
            if answer {
                (with_phase(m, DeployPhase::Finished), ActionModel::Done)
            } else {
                (
                    with_phase(m, DeployPhase::Finished),
                    ActionModel::Failed(FailureModel::MoveFailed(m.source)),
                )
            }
        },
        DeployPhase::Finished => (m, ActionModel::Done),
    }
}

impl Deployment {
    /// Begins the deployment of `app_name` (or, when it is empty, of the app
    /// named by the last segment of `fe_path`) from `fe_path/build_subdir` to
    /// `destination_root`, and asks whether the `apps` level is a directory.
    pub fn start(
        fe_path: &str,
        build_subdir: &str,
        destination_root: &str,
        app_name: &str,
        separator: char,
    ) -> (r: (Deployment, DeployAction))
        ensures
            (r.0@, r.1@) == start_model(fe_path@, build_subdir@, destination_root@, app_name@, separator),
    {
        let build_dir = join_path(fe_path, build_subdir, separator);
        let target = resolve_target_name(fe_path, app_name, separator);
        let d = Deployment {
            phase: DeployPhase::Layout,
            build_dir,
            target,
            destination_root: String::from_str(destination_root),
            separator,
            source: String::new(),
        };
        let apps = join_path(d.build_dir.as_str(), "apps", separator);
        proof {
            reveal_strlit("apps");
            assert("apps"@ =~= seq!['a', 'p', 'p', 's']);
            assert(d@.source =~= Seq::<char>::empty());
        }
        (d, DeployAction::CheckDir(apps))
    }

    fn moved_to(&self, phase: DeployPhase) -> (r: Deployment)
        ensures
            r@ == with_phase(self@, phase),
    {
        Deployment {
            phase,
            build_dir: self.build_dir.clone(),
            target: self.target.clone(),
            destination_root: self.destination_root.clone(),
            separator: self.separator,
            source: self.source.clone(),
        }
    }

    fn installed(&self) -> (r: String)
        ensures
            r@ == installed_path(self@),
    {
        join_path(self.destination_root.as_str(), self.target.as_str(), self.separator)
    }

    /// Takes the answer to the last action and returns the next state and
    /// action.
    pub fn step(&self, answer: bool) -> (r: (Deployment, DeployAction))
        requires
            self.phase != DeployPhase::Finished,
        ensures
            (r.0@, r.1@) == step_model(self@, answer),
    {
        match self.phase {
            DeployPhase::Layout => {
                let source = if answer {
                    let apps = join_path(self.build_dir.as_str(), "apps", self.separator);
                    proof {
                        reveal_strlit("apps");
                        assert("apps"@ =~= seq!['a', 'p', 'p', 's']);
                    }
                    join_path(apps.as_str(), self.target.as_str(), self.separator)
                } else {
                    join_path(self.build_dir.as_str(), self.target.as_str(), self.separator)
                };
                let n = Deployment {
                    phase: DeployPhase::Existing,
                    build_dir: self.build_dir.clone(),
                    target: self.target.clone(),
                    destination_root: self.destination_root.clone(),
                    separator: self.separator,
                    source,
                };
                (n, DeployAction::CheckExists(self.installed()))
            },
            DeployPhase::Existing => {
                if answer {
                    (self.moved_to(DeployPhase::Removing), DeployAction::Remove(self.installed()))
                } else {
                    (self.moved_to(DeployPhase::Source), DeployAction::CheckExists(self.source.clone()))
                }
            },
            DeployPhase::Removing => {
                if answer {
                    (self.moved_to(DeployPhase::Source), DeployAction::CheckExists(self.source.clone()))
                } else {
                    (
                        self.moved_to(DeployPhase::Finished),
                        DeployAction::Finish(Err(DeployError::DeleteFailed(self.installed()))),
                    )
                }
            },
            DeployPhase::Source => {
                if answer {
                    (
                        self.moved_to(DeployPhase::Moving),
                        DeployAction::Move(self.source.clone(), self.destination_root.clone()),
                    )
                } else {
                    (
                        self.moved_to(DeployPhase::Finished),
                        DeployAction::Finish(Err(DeployError::SourceNotFound(self.source.clone()))),
                    )
                }
            },
            _ => {
                if answer {
                    (self.moved_to(DeployPhase::Finished), DeployAction::Finish(Ok(())))
                } else {
                    (
                        self.moved_to(DeployPhase::Finished),
                        DeployAction::Finish(Err(DeployError::MoveFailed(self.source.clone()))),
                    )
                }
            },
        }
    }
}

} // verus!
