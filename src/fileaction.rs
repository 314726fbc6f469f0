use vstd::prelude::*;

use crate::errors::ZapError;
use crate::file_time_util::{flagged, AdjustableFileTime, FileTimeSpec};

verus! {

/// One step of the work planned for a single path.
#[derive(Clone, Debug)]
pub enum Action {
    Skip { reason: String },
    CreateEmpty,
    CreateWithTemplate { template_name: String, context_str: Option<String> },
    OverwriteWithTemplate { template_name: String, context_str: Option<String> },
    SetTimes { times: FileTimeSpec },
    AdjustTimes {
        adjustment_str: String,
        should_update_access: bool,
        should_update_modification: bool,
    },
}

/// The content of an [`Action`], with strings as character sequences.
pub enum ActionView {
    Skip,
    CreateEmpty,
    CreateWithTemplate { template_name: Seq<char>, context_str: Option<Seq<char>> },
    OverwriteWithTemplate { template_name: Seq<char>, context_str: Option<Seq<char>> },
    SetTimes { times: FileTimeSpec },
    AdjustTimes {
        adjustment_str: Seq<char>,
        should_update_access: bool,
        should_update_modification: bool,
    },
}

pub open spec fn string_opt_view(s: Option<String>) -> Option<Seq<char>> {
    match s {
        Some(x) => Some(x@),
        None => None,
    }
}

pub open spec fn str_opt_view(s: Option<&str>) -> Option<Seq<char>> {
    match s {
        Some(x) => Some(x@),
        None => None,
    }
}

impl View for Action {
    type V = ActionView;

    open spec fn view(&self) -> ActionView {
        match self {
            Action::Skip { .. } => ActionView::Skip,
            Action::CreateEmpty => ActionView::CreateEmpty,
            Action::CreateWithTemplate { template_name, context_str } => ActionView::CreateWithTemplate {
                template_name: template_name@,
                context_str: string_opt_view(*context_str),
            },
            Action::OverwriteWithTemplate { template_name, context_str } => ActionView::OverwriteWithTemplate {
                template_name: template_name@,
                context_str: string_opt_view(*context_str),
            },
            Action::SetTimes { times } => ActionView::SetTimes { times: *times },
            Action::AdjustTimes { adjustment_str, should_update_access, should_update_modification } =>
                ActionView::AdjustTimes {
                adjustment_str: adjustment_str@,
                should_update_access: *should_update_access,
                should_update_modification: *should_update_modification,
            },
        }
    }
}

pub open spec fn copied(t: Option<&FileTimeSpec>) -> Option<FileTimeSpec> {
    match t {
        Some(x) => Some(*x),
        None => None,
    }
}

/// The views of a list of actions.
pub open spec fn actions_view(v: Seq<Action>) -> Seq<ActionView> {
    v.map_values(|a: Action| a@)
}

/// The options that decide what is done to each path.
pub struct Planner<'a> {
    /// Missing files are skipped rather than created.
    pub no_create: bool,
    /// An adjustment `[-][[hh]mm]SS` of the times on disk, applied last.
    pub adjust: Option<&'a str>,
    /// The template that new or existing files are written from.
    pub template: Option<&'a str>,
    /// The `key=value,...` context for the template.
    pub context: Option<&'a str>,
    pub should_update_access: bool,
    pub should_update_modification: bool,
    /// Used when carrying out a plan: create missing parent directories without asking.
    pub create_intermediate_dirs: bool,
    /// Used when carrying out a plan: time updates act on a link itself. The plan does
    /// not depend on it.
    pub symlink_only: bool,
}

impl<'a> Planner<'a> {
    /// The file operation, if any: creation or overwrite from a template, or an empty file.
    pub open spec fn file_step(&self, file_exists: bool) -> Seq<ActionView> {
        if !file_exists {
            match self.template {
                Some(t) => seq![
                    ActionView::CreateWithTemplate {
                        template_name: t@,
                        context_str: str_opt_view(self.context),
                    },
                ],
                None => seq![ActionView::CreateEmpty],
            }
        } else {
            match self.template {
                Some(t) => seq![
                    ActionView::OverwriteWithTemplate {
                        template_name: t@,
                        context_str: str_opt_view(self.context),
                    },
                ],
                None => seq![],
            }
        }
    }

    /// Whether times are set: always with an explicit source or when the content is
    /// written, and otherwise unless an adjustment takes the place of the plain touch.
    pub open spec fn sets_times(&self, file_exists: bool, explicit: Option<FileTimeSpec>) -> bool {
        explicit is Some || !file_exists || self.template is Some || self.adjust is None
    }

    /// The times that a set step uses: the explicit ones, else `now`, limited to the
    /// selected attributes.
    pub open spec fn set_spec(&self, explicit: Option<FileTimeSpec>, now: AdjustableFileTime) -> FileTimeSpec {
        let base = match explicit {
            Some(t) => t,
            None => FileTimeSpec { atime: Some(now), mtime: Some(now) },
        };
        flagged(base, self.should_update_access, self.should_update_modification)
    }

    pub open spec fn time_steps(
        &self,
        file_exists: bool,
        explicit: Option<FileTimeSpec>,
        now: AdjustableFileTime,
    ) -> Seq<ActionView> {
        let set = if self.sets_times(file_exists, explicit) {
            seq![ActionView::SetTimes { times: self.set_spec(explicit, now) }]
        } else {
            seq![]
        };
        let adjust = match self.adjust {
            Some(a) => seq![
                ActionView::AdjustTimes {
                    adjustment_str: a@,
                    should_update_access: self.should_update_access,
                    should_update_modification: self.should_update_modification,
                },
            ],
            None => seq![],
        };
        set + adjust
    }

    /// The plan for one path, given whether it exists, the explicit times if any and
    /// the current time.
    pub open spec fn plan_model(
        &self,
        file_exists: bool,
        explicit: Option<FileTimeSpec>,
        now: AdjustableFileTime,
    ) -> Seq<ActionView> {
        if !file_exists && self.no_create {
            seq![ActionView::Skip]
        } else {
            self.file_step(file_exists) + self.time_steps(file_exists, explicit, now)
        }
    }

    /// Plans the work for one path, with `now` standing in for the current time.
    pub fn plan_at(
        &self,
        file_exists: bool,
        explicit_times: Option<&FileTimeSpec>,
        now: AdjustableFileTime,
    ) -> (r: Vec<Action>)
        ensures
            actions_view(r@) == self.plan_model(
                file_exists,
                copied(explicit_times),
                now,
            ),
    {
        let ghost explicit = copied(explicit_times);
        let mut actions: Vec<Action> = Vec::new();
        if !file_exists && self.no_create {
            actions.push(
                Action::Skip {
                    reason: String::from_str("File doesn't exist and --no-create flag is set"),
                },
            );
            assert(actions_view(actions@) =~= self.plan_model(file_exists, explicit, now));
            return actions;
        }
        let context = match self.context {
            Some(c) => Some(String::from_str(c)),
            None => None,
        };
        assert(string_opt_view(context) == str_opt_view(self.context));
        match self.template {
            Some(t) => {
                if file_exists {
                    actions.push(
                        Action::OverwriteWithTemplate {
                            template_name: String::from_str(t),
                            context_str: context,
                        },
                    );
                } else {
                    actions.push(
                        Action::CreateWithTemplate {
                            template_name: String::from_str(t),
                            context_str: context,
                        },
                    );
                }
            },
            None => {
                if !file_exists {
                    actions.push(Action::CreateEmpty);
                }
            },
        }
        assert(actions_view(actions@) =~= self.file_step(file_exists));
        let ghost after_file = actions@;
        if explicit_times.is_some() || !file_exists || self.template.is_some()
            || self.adjust.is_none() {
            let base = match explicit_times {
                Some(t) => *t,
                None => FileTimeSpec::both(now),
            };
            actions.push(
                Action::SetTimes {
                    times: base.with_flags(
                        self.should_update_access,
                        self.should_update_modification,
                    ),
                },
            );
        }
        let ghost after_set = actions@;
        assert(actions_view(after_set) =~= self.file_step(file_exists) + (
        if self.sets_times(file_exists, explicit) {
            seq![ActionView::SetTimes { times: self.set_spec(explicit, now) }]
        } else {
            seq![]
        }));
        if let Some(a) = self.adjust {
            actions.push(
                Action::AdjustTimes {
                    adjustment_str: String::from_str(a),
                    should_update_access: self.should_update_access,
                    should_update_modification: self.should_update_modification,
                },
            );
        }
        assert(actions_view(actions@) =~= self.plan_model(file_exists, explicit, now));
        actions
    }

    /// Plans the work for one path. Without explicit times, the times set are the
    /// current time as read once by this call.
    pub fn plan(&self, file_exists: bool, explicit_times: Option<&FileTimeSpec>) -> (r: Result<
        Vec<Action>,
        ZapError,
    >)
        ensures
            r is Ok,
            exists|now: AdjustableFileTime|
                actions_view(r->Ok_0@) == #[trigger] self.plan_model(
                    file_exists,
                    copied(explicit_times),
                    now,
                ),
    {
        let now = AdjustableFileTime::now();
        Ok(self.plan_at(file_exists, explicit_times, now))
    }
}

/// What to do about the parent directory of a file about to be created.
#[derive(Clone, Copy, Debug, PartialEq, Eq, Structural)]
pub enum DirStep {
    /// The parent exists, or there is none to create.
    Nothing,
    /// Create the missing parent directories.
    Create,
    /// Ask the user first; a refusal ends the work on this file.
    Ask,
}

/// The parent directory is created without asking only when that is forced.
pub fn parent_dir_step(parent_missing: bool, create_intermediate_dirs: bool) -> (r: DirStep)
    ensures
        !parent_missing ==> r == DirStep::Nothing,
        parent_missing && create_intermediate_dirs ==> r == DirStep::Create,
        parent_missing && !create_intermediate_dirs ==> r == DirStep::Ask,
{
    if !parent_missing {
        DirStep::Nothing
    } else if create_intermediate_dirs {
        DirStep::Create
    } else {
        DirStep::Ask
    }
}

/// A missing file with creation suppressed is skipped, and nothing else is planned
/// for it, whatever the other options say.
pub proof fn lemma_absent_no_create_skips(
    planner: Planner,
    explicit: Option<FileTimeSpec>,
    now: AdjustableFileTime,
)
    requires
        planner.no_create,
    ensures
        planner.plan_model(false, explicit, now) == seq![ActionView::Skip],
{
}

/// A missing file with a template is created from it, and its times are then set
/// exactly once.
pub proof fn lemma_absent_template_creates(
    planner: Planner,
    explicit: Option<FileTimeSpec>,
    now: AdjustableFileTime,
)
    requires
        !planner.no_create,
        planner.template is Some,
    ensures
        ({
            let plan = planner.plan_model(false, explicit, now);
            &&& plan.len() >= 2
            &&& plan[0] is CreateWithTemplate
            &&& plan[1] is SetTimes
            &&& forall|i: int| 2 <= i < plan.len() ==> !(#[trigger] plan[i] is SetTimes)
        }),
{
}

/// An existing file with neither template nor adjustment gets one time update: the
/// explicit times if given, else the current time, limited to the selected attributes.
pub proof fn lemma_present_plain_touch(
    planner: Planner,
    explicit: Option<FileTimeSpec>,
    now: AdjustableFileTime,
)
    requires
        planner.template is None,
        planner.adjust is None,
    ensures
        planner.plan_model(true, explicit, now) == seq![
            ActionView::SetTimes {
                times: flagged(
                    match explicit {
                        Some(t) => t,
                        None => FileTimeSpec { atime: Some(now), mtime: Some(now) },
                    },
                    planner.should_update_access,
                    planner.should_update_modification,
                ),
            },
        ],
{
    assert(planner.plan_model(true, explicit, now) =~= seq![
        ActionView::SetTimes { times: planner.set_spec(explicit, now) },
    ]);
}

/// An existing file with an adjustment and no explicit time source gets the
/// adjustment alone: no set step.
pub proof fn lemma_present_adjust_only(planner: Planner, now: AdjustableFileTime)
    requires
        planner.template is None,
        planner.adjust is Some,
    ensures
        planner.plan_model(true, None, now) == seq![
            ActionView::AdjustTimes {
                adjustment_str: planner.adjust->Some_0@,
                should_update_access: planner.should_update_access,
                should_update_modification: planner.should_update_modification,
            },
        ],
{
    assert(planner.plan_model(true, None, now) =~= seq![
        ActionView::AdjustTimes {
            adjustment_str: planner.adjust->Some_0@,
            should_update_access: planner.should_update_access,
            should_update_modification: planner.should_update_modification,
        },
    ]);
}

/// When an adjustment is requested and the path is not skipped, the adjustment is the
/// last step, after any set step.
pub proof fn lemma_adjust_comes_last(
    planner: Planner,
    file_exists: bool,
    explicit: Option<FileTimeSpec>,
    now: AdjustableFileTime,
)
    requires
        planner.adjust is Some,
        file_exists || !planner.no_create,
    ensures
        ({
            let plan = planner.plan_model(file_exists, explicit, now);
            &&& plan.len() >= 1
            &&& plan.last() is AdjustTimes
            &&& forall|i: int| 0 <= i < plan.len() - 1 ==> !(#[trigger] plan[i] is AdjustTimes)
        }),
{
}

} // verus!
