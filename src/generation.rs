//! The course of one model generation: resolve the fields, render the entity
//! and its test scaffold, then run the schema and entity build steps.
//!
//! The steps themselves are carried out by the caller; this module decides,
//! from each step's outcome, what comes next and what the result is.

use vstd::prelude::*;

use crate::resolve::{
    all_accepted, columns_view, fields_view, first_rejected_tag, references_view,
    resolve_fields, resolved_columns, resolved_redundant, resolved_references, strings_view,
    Column, Reference,
};
use crate::schema_type::{tags_of, valid_tags, UnknownTypeTag};

verus! {

/// What happens to a failed build step.
#[derive(Clone, Copy, Debug, PartialEq, Eq, Structural)]
pub enum BuildFailurePolicy {
    /// Record the failure and go on: the build steps are best effort.
    Discard,
    /// Stop and report the failure.
    Propagate,
}

/// An artifact to render.
#[derive(Clone, Copy, Debug, PartialEq, Eq, Structural)]
pub enum Template {
    /// The entity definition.
    Model,
    /// The entity's test scaffold.
    ModelTest,
}

/// A build step to run once the artifacts are rendered.
#[derive(Clone, Copy, Debug, PartialEq, Eq, Structural)]
pub enum BuildStep {
    /// Bring the database schema up to date.
    MigrateSchema,
    /// Regenerate the entity code from the schema.
    RegenerateEntities,
}

/// Where a generation stands.
#[derive(Clone, Copy, Debug, PartialEq, Eq, Structural)]
pub enum Stage {
    RenderModel,
    RenderModelTest,
    MigrateSchema,
    RegenerateEntities,
    Finished,
}

/// What the caller is to do next.
#[derive(Clone, Copy, Debug, PartialEq, Eq, Structural)]
pub enum Action {
    Render(Template),
    Build(BuildStep),
    /// Nothing is left to do: the outcome is ready.
    Finish,
}

/// How the last action went: its output text, or what went wrong.
pub enum StepOutcome {
    Succeeded(String),
    Failed(String),
}

/// Why a generation failed.
pub enum GenerateError {
    UnknownTypeTag(UnknownTypeTag),
    RenderingFailure(String),
    BuildStepFailure(String),
}

/// The entity to generate: its metadata and its resolved columns and
/// references.
pub struct SchemaDescriptor {
    pub entity: String,
    /// Whether the entity is a pure link (join) table.
    pub is_link: bool,
    pub timestamp: String,
    /// The identifier of the application package.
    pub package: String,
    pub columns: Vec<Column>,
    pub references: Vec<Reference>,
}

/// One generation in progress.
pub struct Generation {
    pub descriptor: SchemaDescriptor,
    /// Fields that were skipped as automatically managed.
    pub redundant_fields: Vec<String>,
    pub policy: BuildFailurePolicy,
    pub stage: Stage,
    /// The output of each rendering so far, in order.
    pub rendered: Vec<String>,
    /// The messages of the build steps that failed, in order.
    pub build_failures: Vec<String>,
    /// Why the generation stopped, if it stopped on a failure.
    pub failure: Option<GenerateError>,
}

/// The stage that follows `s` when its step went through.
pub open spec fn next_stage(s: Stage) -> Stage {
    match s {
        Stage::RenderModel => Stage::RenderModelTest,
        Stage::RenderModelTest => Stage::MigrateSchema,
        Stage::MigrateSchema => Stage::RegenerateEntities,
        Stage::RegenerateEntities => Stage::Finished,
        Stage::Finished => Stage::Finished,
    }
}

/// The action that stage `s` calls for.
pub open spec fn action_for(s: Stage) -> Action {
    match s {
        Stage::RenderModel => Action::Render(Template::Model),
        Stage::RenderModelTest => Action::Render(Template::ModelTest),
        Stage::MigrateSchema => Action::Build(BuildStep::MigrateSchema),
        Stage::RegenerateEntities => Action::Build(BuildStep::RegenerateEntities),
        Stage::Finished => Action::Finish,
    }
}

/// Whether stage `s` renders an artifact.
pub open spec fn is_render_stage(s: Stage) -> bool {
    s == Stage::RenderModel || s == Stage::RenderModelTest
}

/// The texts of `ss` joined in order.
pub open spec fn concat_all(ss: Seq<Seq<char>>) -> Seq<char>
    decreases ss.len(),
{
    if ss.len() == 0 {
        Seq::empty()
    } else {
        concat_all(ss.drop_last()) + ss.last()
    }
}

fn advance(s: Stage) -> (r: Stage)
    ensures
        r == next_stage(s),
{
    match s {
        Stage::RenderModel => Stage::RenderModelTest,
        Stage::RenderModelTest => Stage::MigrateSchema,
        Stage::MigrateSchema => Stage::RegenerateEntities,
        Stage::RegenerateEntities => Stage::Finished,
        Stage::Finished => Stage::Finished,
    }
}

/// The texts of `texts` joined in order.
pub fn collect_messages(texts: &Vec<String>) -> (r: String)
    ensures
        r@ == concat_all(strings_view(texts@)),
{
    let ghost sv = strings_view(texts@);
    let mut r = String::new();
    let mut i: usize = 0;
    while i < texts.len()
        invariant
            sv == strings_view(texts@),
            i <= texts.len(),
            r@ == concat_all(sv.subrange(0, i as int)),
        decreases texts.len() - i,
    {
        assert(sv.subrange(0, i + 1).drop_last() =~= sv.subrange(0, i as int));
        r.append(texts[i].as_str());
        i = i + 1;
    }
    assert(sv.subrange(0, texts.len() as int) =~= sv);
    r
}

impl Generation {
    /// Resolves `fields` and, if they all resolve, starts a generation of the
    /// entity at its first rendering. An unknown type tag stops everything
    /// before any step runs.
    pub fn start(
        entity: String,
        is_link: bool,
        timestamp: String,
        package: String,
        fields: &[(String, String)],
        policy: BuildFailurePolicy,
    ) -> (r: Result<Generation, GenerateError>)
        ensures
            r is Ok <==> all_accepted(fields_view(fields@)),
            r matches Ok(g) ==> {
                &&& g.descriptor.entity == entity
                &&& g.descriptor.is_link == is_link
                &&& g.descriptor.timestamp == timestamp
                &&& g.descriptor.package == package
                &&& columns_view(g.descriptor.columns@) == resolved_columns(fields_view(fields@))
                &&& references_view(g.descriptor.references@) == resolved_references(
                    fields_view(fields@),
                )
                &&& strings_view(g.redundant_fields@) == resolved_redundant(fields_view(fields@))
                &&& g.policy == policy
                &&& g.stage == Stage::RenderModel
                &&& g.rendered@.len() == 0
                &&& g.build_failures@.len() == 0
                &&& g.failure is None
            },
            r matches Err(e) ==> {
                &&& e matches GenerateError::UnknownTypeTag(u)
                &&& first_rejected_tag(fields_view(fields@), u.tag@)
                &&& tags_of(u.valid_tags@) == valid_tags()
            },
    {
        match resolve_fields(fields) {
            Ok(res) => Ok(
                Generation {
                    descriptor: SchemaDescriptor {
                        entity,
                        is_link,
                        timestamp,
                        package,
                        columns: res.columns,
                        references: res.references,
                    },
                    redundant_fields: res.redundant_fields,
                    policy,
                    stage: Stage::RenderModel,
                    rendered: Vec::new(),
                    build_failures: Vec::new(),
                    failure: None,
                },
            ),
            Err(u) => Err(GenerateError::UnknownTypeTag(u)),
        }
    }

    /// What the caller is to do next.
    pub fn next_action(&self) -> (r: Action)
        ensures
            r == action_for(self.stage),
    {
        match self.stage {
            Stage::RenderModel => Action::Render(Template::Model),
            Stage::RenderModelTest => Action::Render(Template::ModelTest),
            Stage::MigrateSchema => Action::Build(BuildStep::MigrateSchema),
            Stage::RegenerateEntities => Action::Build(BuildStep::RegenerateEntities),
            Stage::Finished => Action::Finish,
        }
    }

    /// Takes in how the action of the current stage went.
    ///
    /// A rendering's text is kept; a failed rendering ends the generation
    /// before any build step. A failed build step is recorded, and ends the
    /// generation only under [`BuildFailurePolicy::Propagate`].
    pub fn record(&mut self, outcome: StepOutcome)
        requires
            old(self).stage != Stage::Finished,
        ensures
            final(self).descriptor == old(self).descriptor,
            final(self).redundant_fields == old(self).redundant_fields,
            final(self).policy == old(self).policy,
            is_render_stage(old(self).stage) ==> final(self).build_failures == old(
                self,
            ).build_failures,
            !is_render_stage(old(self).stage) ==> final(self).rendered == old(self).rendered,
            outcome matches StepOutcome::Succeeded(text) ==> {
                &&& final(self).stage == next_stage(old(self).stage)
                &&& final(self).failure == old(self).failure
                &&& final(self).build_failures == old(self).build_failures
                &&& is_render_stage(old(self).stage) ==> final(self).rendered@ == old(
                    self,
                ).rendered@.push(text)
            },
            outcome matches StepOutcome::Failed(msg) ==> if is_render_stage(old(self).stage) {
                &&& final(self).stage == Stage::Finished
                &&& final(self).failure == Some(GenerateError::RenderingFailure(msg))
                &&& final(self).rendered == old(self).rendered
            } else {
                &&& final(self).build_failures@ == old(self).build_failures@.push(msg)
                &&& old(self).policy == BuildFailurePolicy::Propagate ==> final(self).stage
                    == Stage::Finished && final(self).failure == Some(
                    GenerateError::BuildStepFailure(msg),
                )
                &&& old(self).policy == BuildFailurePolicy::Discard ==> final(self).stage
                    == next_stage(old(self).stage) && final(self).failure == old(self).failure
            },
    {
        if self.stage == Stage::RenderModel || self.stage == Stage::RenderModelTest {
            match outcome {
                StepOutcome::Succeeded(text) => {
                    self.rendered.push(text);
                    self.stage = advance(self.stage);
                },
                StepOutcome::Failed(msg) => {
                    self.failure = Some(GenerateError::RenderingFailure(msg));
                    self.stage = Stage::Finished;
                },
            }
        } else {
            match outcome {
                StepOutcome::Succeeded(_) => {
                    self.stage = advance(self.stage);
                },
                StepOutcome::Failed(msg) => {
                    self.build_failures.push(msg.clone());
                    match self.policy {
                        BuildFailurePolicy::Propagate => {
                            self.failure = Some(GenerateError::BuildStepFailure(msg));
                            self.stage = Stage::Finished;
                        },
                        BuildFailurePolicy::Discard => {
                            self.stage = advance(self.stage);
                        },
                    }
                },
            }
        }
    }

    /// The result of a finished generation: the rendered texts joined in
    /// order, or the failure that stopped it. `None` while steps remain.
    pub fn into_outcome(self) -> (r: Option<Result<String, GenerateError>>)
        ensures
            self.stage != Stage::Finished ==> r is None,
            self.stage == Stage::Finished ==> match self.failure {
                None => r matches Some(Ok(s)) && s@ == concat_all(strings_view(self.rendered@)),
                Some(e) => r == Some(Err::<String, GenerateError>(e)),
            },
    {
        if self.stage != Stage::Finished {
            return None;
        }
        match self.failure {
            None => Some(Ok(collect_messages(&self.rendered))),
            Some(e) => Some(Err(e)),
        }
    }
}

} // verus!
