//! The end-to-end export pipeline as a state machine.
//!
//! The machine owns every decision of an export — what resolves, what is
//! built, when the workspace is destroyed, how credentials are obtained,
//! what is pushed — while a driver performs the outside work each [`Action`]
//! asks for and reports what happened as the next [`Event`]. The machine's
//! invariant carries the pipeline's guarantees: the workspace is destroyed
//! exactly once whenever one was created, before any publishing begins and
//! on every failure path; a token exchange happens at most once, and only
//! for the cloud-managed registry kind of a publishing export; uploads are
//! never rolled back.

use vstd::prelude::*;

use crate::buildspec::{spec_resolve, BuildSpec, ResolvedUnit, UnitView};
use crate::engine::Engine;
use crate::error::{ExportError, ExportWarning};
use crate::ident::PackageIdent;
use crate::image::{
    clone_string_vec, spec_remote_refs, spec_report_lines, spec_tag_refs, ContainerImage,
};
use crate::naming::{spec_image_name, spec_tag_list, Naming};
use crate::registry::{spec_basic_token, Credentials, RegistryType};

verus! {

/// Where the pipeline stands.
#[derive(Clone, Copy, Debug, PartialEq, Eq, Structural)]
pub enum Stage {
    /// Resolving the component references.
    Resolving,
    /// Populating the workspace with the resolved units.
    Assembling,
    /// The engine is building and tagging the image.
    Building,
    /// Destroying the workspace, whatever the build's outcome.
    Cleaning,
    /// Writing the build report, best effort.
    Reporting,
    /// Exchanging account credentials for a registry token.
    FetchingToken,
    /// Authenticating the engine's registry session.
    LoggingIn,
    /// Uploading the tags, one at a time.
    Pushing,
    /// Removing the image's local tags.
    Removing,
    /// The export ended successfully.
    Done,
    /// The export ended with a fatal error.
    Failed,
}

/// What a driver must perform next.
pub enum Action {
    /// Ask the depot for the fully qualified completion of each reference.
    Lookup { references: Vec<String> },
    /// Create the workspace and install the units onto the base image.
    Assemble { units: Vec<ResolvedUnit>, base_image: String },
    /// Have the engine build the workspace and apply every tag.
    BuildImage {
        workspace: String,
        name: String,
        tags: Vec<String>,
        memory: Option<String>,
        engine: Engine,
    },
    /// Remove the workspace.
    Destroy,
    /// Write the build report, best effort.
    WriteReport { lines: Vec<String> },
    /// Exchange the account credentials for a registry token.
    FetchToken { username: String, password: String },
    /// Authenticate the engine's registry session with the token.
    Login { token: String, registry_url: Option<String> },
    /// Upload one tag.
    PushTag { target: String },
    /// Remove the image's local tags.
    RemoveImage { targets: Vec<String> },
    /// The export is over; inspect the machine for the outcome.
    Finished,
}

/// What the driver reports back after performing an action.
pub enum Event {
    /// The depot's answer for each reference, in order.
    LookupDone { answers: Vec<Option<PackageIdent>> },
    /// The workspace stands at `workspace`; `primary` is the installed
    /// package the image is named after.
    AssembleOk { workspace: String, primary: PackageIdent },
    /// Populating the workspace failed.
    AssembleFailed { reason: String },
    /// The engine built the image.
    BuildOk { image_id: String },
    /// The engine failed; its diagnostic output verbatim.
    BuildFailed { diagnostic: String },
    /// The workspace was removed.
    DestroyOk,
    /// Removing the workspace failed.
    DestroyFailed { reason: String },
    /// The report was written.
    ReportOk,
    /// Writing the report failed.
    ReportFailed { reason: String },
    /// The token exchange answered; the authorization tokens, if any.
    TokenExchangeDone { authorization_data: Option<Vec<Option<String>>> },
    /// The token exchange could not be made.
    TokenFailed { reason: String },
    /// The engine's registry session is authenticated.
    LoginOk,
    /// Authenticating failed.
    LoginFailed { reason: String },
    /// The current tag was uploaded.
    PushTagOk,
    /// Uploading the current tag failed; earlier uploads stand.
    PushTagFailed { reason: String },
    /// The local tags were removed.
    RemoveOk,
    /// Removing the local tags failed.
    RemoveFailed { reason: String },
}

/// Everything one export is asked to do.
pub struct ExportRequest {
    /// What goes into the image.
    pub spec: BuildSpec,
    /// How the image is named and tagged, and where it is published.
    pub naming: Naming,
    /// Which build tool to use.
    pub engine: Engine,
    /// An optional memory limit handed to the build.
    pub memory: Option<String>,
    /// Whether to push the image after building.
    pub push_image: bool,
    /// Whether to remove the local image after building (and pushing).
    pub rm_image: bool,
    /// The registry account name; required when pushing.
    pub username: Option<String>,
    /// The registry account password; required when pushing.
    pub password: Option<String>,
}

impl ExportRequest {
    /// A well-formed request: something to build, and credentials whenever
    /// a push was asked for.
    pub open spec fn wf(&self) -> bool {
        &&& self.spec.wf()
        &&& (self.push_image ==> self.username is Some && self.password is Some)
    }
}

/// The export pipeline's state between two steps.
pub struct ExportPipeline {
    /// The request this export serves; never changed by a step.
    pub request: ExportRequest,
    /// Where the pipeline stands.
    pub stage: Stage,
    /// Whether a workspace was (or is being) created.
    pub root_created: bool,
    /// How many times destruction of the workspace was requested.
    pub destroys: u32,
    /// How many token exchanges were requested.
    pub token_exchanges: u32,
    /// The image name decided for the build, until the image exists.
    pub pending_name: Option<String>,
    /// The tag list decided for the build, until the image exists.
    pub pending_tags: Option<Vec<String>>,
    /// The built image, once the engine succeeded.
    pub image: Option<ContainerImage>,
    /// The references the tags are uploaded under, in order.
    pub remote_targets: Vec<String>,
    /// How many of `remote_targets` were uploaded.
    pub push_index: usize,
    /// Secondary outcomes that never fail the export.
    pub warnings: Vec<ExportWarning>,
    /// The fatal error that ended (or will end) the export.
    pub failure: Option<ExportError>,
}

/// Whether an optional string was copied character for character.
pub open spec fn same_opt_string(a: Option<String>, b: Option<Seq<char>>) -> bool {
    match (a, b) {
        (Some(x), Some(y)) => x@ == y,
        (None, None) => true,
        _ => false,
    }
}

/// What one step decides while resolving: either every reference resolved
/// and assembly begins, or the export fails naming the first unresolvable
/// reference, with no workspace ever created and none destroyed.
pub open spec fn transition_resolving(
    pre: ExportPipeline,
    event: Event,
    post: ExportPipeline,
    a: Action,
) -> bool {
    match event {
        Event::LookupDone { answers } => match spec_resolve(
            pre.request.spec.idents_or_archives.deep_view(),
            pre.request.spec.default_origin@,
            answers.deep_view(),
        ) {
            Ok(units) => post.stage == Stage::Assembling && post.root_created && post.destroys == 0
                && (a matches Action::Assemble { units: us, base_image } && us.deep_view() == units
                && base_image@ == pre.request.spec.base_image@),
            Err(rf) => post.stage == Stage::Failed && !post.root_created && post.destroys == 0 && (
            post.failure matches Some(e)
                && (e matches ExportError::Resolution { reference } && reference@ == rf)),
        },
        _ => true,
    }
}

/// What one step decides while assembling: a populated workspace starts the
/// engine build under the computed name and tag list; a population failure
/// still destroys the workspace before the export fails.
pub open spec fn transition_assembling(
    pre: ExportPipeline,
    event: Event,
    post: ExportPipeline,
    a: Action,
) -> bool {
    match event {
        Event::AssembleOk { workspace, primary } => post.stage == Stage::Building && (a
            matches Action::BuildImage { workspace: w, name, tags, memory, engine } && w@
            == workspace@ && name@ == spec_image_name(pre.request.naming@, primary@)
            && tags.deep_view() == spec_tag_list(pre.request.naming@, primary@) && same_opt_string(
            memory,
            match pre.request.memory {
                Some(m) => Some(m@),
                None => None,
            },
        ) && engine == pre.request.engine) && (post.pending_name matches Some(n) && n@
            == spec_image_name(pre.request.naming@, primary@)) && (post.pending_tags matches Some(t)
            && t.deep_view() == spec_tag_list(pre.request.naming@, primary@)),
        Event::AssembleFailed { reason } => post.stage == Stage::Cleaning && post.destroys == 1 && (
        a matches Action::Destroy) && (post.failure matches Some(e) && (e
            matches ExportError::BuildRoot { reason: r2 } && r2@ == reason@)),
        _ => true,
    }
}

/// What one step decides while building: success makes the image and failure
/// keeps the engine's diagnostic; either way the workspace is destroyed
/// next, exactly once.
pub open spec fn transition_building(
    pre: ExportPipeline,
    event: Event,
    post: ExportPipeline,
    a: Action,
) -> bool {
    match event {
        Event::BuildOk { image_id } => post.stage == Stage::Cleaning && post.destroys == 1 && (a
            matches Action::Destroy) && post.failure is None && (post.image matches Some(img)
            && img.name@ == pre.pending_name.unwrap()@ && img.id@ == image_id@
            && img.tags.deep_view() == pre.pending_tags.unwrap().deep_view()),
        Event::BuildFailed { diagnostic } => post.stage == Stage::Cleaning && post.destroys == 1
            && (a matches Action::Destroy) && (post.failure matches Some(e) && (e
            matches ExportError::EngineBuild { diagnostic: d } && d@ == diagnostic@)),
        _ => true,
    }
}

/// What one step decides after the workspace was destroyed: a pending fatal
/// error ends the export; otherwise the report is written. A destruction
/// failure only adds a warning and never escalates.
pub open spec fn transition_cleaning(
    pre: ExportPipeline,
    event: Event,
    post: ExportPipeline,
    a: Action,
) -> bool {
    &&& (match event {
        Event::DestroyOk => post.warnings == pre.warnings,
        Event::DestroyFailed { reason } => post.warnings.len() == pre.warnings.len() + 1 && (
        post.warnings@.last() matches ExportWarning::Cleanup { reason: r2 }
            && r2@ == reason@),
        _ => true,
    })
    &&& (match event {
        Event::DestroyOk | Event::DestroyFailed { .. } => post.destroys == 1 && post.failure
            == pre.failure && post.image == pre.image && (match pre.failure {
            Some(_) => post.stage == Stage::Failed && (a matches Action::Finished),
            None => post.stage == Stage::Reporting && (a matches Action::WriteReport { lines }
                && lines.deep_view() == spec_report_lines(
                pre.image.unwrap().name@,
                pre.image.unwrap().id@,
                pre.image.unwrap().tags.deep_view(),
            )),
        }),
        _ => true,
    })
}

/// What one step decides after the report: resolve credentials for a push —
/// one token exchange for the cloud-managed kind, a locally encoded
/// credential for the generic kinds — or remove the local image, or finish.
/// A report failure only adds a warning and never escalates.
pub open spec fn transition_reporting(
    pre: ExportPipeline,
    event: Event,
    post: ExportPipeline,
    a: Action,
) -> bool {
    &&& (match event {
        Event::ReportOk => post.warnings == pre.warnings,
        Event::ReportFailed { reason } => post.warnings.len() == pre.warnings.len() + 1 && (
        post.warnings@.last() matches ExportWarning::Report { reason: r2 }
            && r2@ == reason@),
        _ => true,
    })
    &&& (match event {
        Event::ReportOk | Event::ReportFailed { .. } => post.failure is None && post.image
            == pre.image && (if pre.request.push_image {
            if pre.request.naming.registry_type == RegistryType::Amazon {
                post.stage == Stage::FetchingToken && post.token_exchanges == 1 && (a
                    matches Action::FetchToken { username, password } && username@
                    == pre.request.username.unwrap()@ && password@
                    == pre.request.password.unwrap()@)
            } else {
                post.stage == Stage::LoggingIn && (a matches Action::Login {
                    token,
                    registry_url,
                } && token@ == spec_basic_token(
                    pre.request.username.unwrap()@,
                    pre.request.password.unwrap()@,
                ) && same_opt_string(
                    registry_url,
                    match pre.request.naming.registry_url {
                        Some(u) => Some(u@),
                        None => None,
                    },
                ))
            }
        } else if pre.request.rm_image {
            post.stage == Stage::Removing && (a matches Action::RemoveImage { targets }
                && targets.deep_view() == spec_tag_refs(
                pre.image.unwrap().name@,
                pre.image.unwrap().tags.deep_view(),
            ))
        } else {
            post.stage == Stage::Done && (a matches Action::Finished)
        }),
        _ => true,
    })
}

/// What one step decides after the token exchange: the first authorization
/// token authenticates the session; an answer without one, or a failed
/// exchange, fails the export.
pub open spec fn transition_fetching_token(
    pre: ExportPipeline,
    event: Event,
    post: ExportPipeline,
    a: Action,
) -> bool {
    match event {
        Event::TokenExchangeDone { authorization_data } => post.token_exchanges == 1 && (match
            authorization_data {
            Some(v) => if v.len() > 0 && v@[0] is Some {
                post.stage == Stage::LoggingIn && (v@[0] matches Some(t) && (a
                    matches Action::Login { token, registry_url } && token@ == t@
                    && same_opt_string(
                    registry_url,
                    match pre.request.naming.registry_url {
                        Some(u) => Some(u@),
                        None => None,
                    },
                )))
            } else {
                post.stage == Stage::Failed && (post.failure matches Some(e) && e
                    matches ExportError::NoECRTokensReturned)
            },
            None => post.stage == Stage::Failed && (post.failure matches Some(e) && e
                matches ExportError::NoECRTokensReturned),
        }),
        Event::TokenFailed { reason } => post.stage == Stage::Failed && (post.failure matches Some(
            e,
        ) && (e matches ExportError::TokenFetchFailed { reason: r2 } && r2@ == reason@)),
        _ => true,
    }
}

/// What one step decides after authenticating: the upload list is fixed —
/// every tag, re-tagged under the registry when a URL was given — and the
/// first upload begins.
pub open spec fn transition_logging_in(
    pre: ExportPipeline,
    event: Event,
    post: ExportPipeline,
    a: Action,
) -> bool {
    match event {
        Event::LoginOk => post.stage == Stage::Pushing && post.push_index == 0
            && post.remote_targets.deep_view() == spec_remote_refs(
            match pre.request.naming.registry_url {
                Some(u) => Some(u@),
                None => None,
            },
            pre.image.unwrap().name@,
            pre.image.unwrap().tags.deep_view(),
        ) && (a matches Action::PushTag { target } && target@
            == post.remote_targets.deep_view()[0]),
        Event::LoginFailed { reason } => post.stage == Stage::Failed && (post.failure matches Some(
            e,
        ) && (e matches ExportError::Push { reason: r2 } && r2@ == reason@)),
        _ => true,
    }
}

/// What one step decides while pushing: a success moves to the next tag, or
/// past the last one; a failure ends the export but retracts nothing that
/// was already uploaded.
pub open spec fn transition_pushing(
    pre: ExportPipeline,
    event: Event,
    post: ExportPipeline,
    a: Action,
) -> bool {
    match event {
        Event::PushTagOk => post.push_index == pre.push_index + 1 && post.remote_targets.deep_view()
            == pre.remote_targets.deep_view() && (if pre.push_index + 1
            < pre.remote_targets.len() {
            post.stage == Stage::Pushing && (a matches Action::PushTag { target } && target@
                == pre.remote_targets.deep_view()[pre.push_index + 1])
        } else if pre.request.rm_image {
            post.stage == Stage::Removing && (a matches Action::RemoveImage { targets }
                && targets.deep_view() == spec_tag_refs(
                pre.image.unwrap().name@,
                pre.image.unwrap().tags.deep_view(),
            ))
        } else {
            post.stage == Stage::Done && (a matches Action::Finished)
        }),
        Event::PushTagFailed { reason } => post.stage == Stage::Failed && post.push_index
            == pre.push_index && post.remote_targets.deep_view() == pre.remote_targets.deep_view()
            && (post.failure matches Some(e) && (e matches ExportError::Push { reason: r2 } && r2@
            == reason@)),
        _ => true,
    }
}

/// What one step decides while removing: success finishes the export with
/// no local image left; failure ends it with a removal error.
pub open spec fn transition_removing(
    pre: ExportPipeline,
    event: Event,
    post: ExportPipeline,
    a: Action,
) -> bool {
    match event {
        Event::RemoveOk => post.stage == Stage::Done && post.image is None && (a
            matches Action::Finished),
        Event::RemoveFailed { reason } => post.stage == Stage::Failed && (post.failure matches Some(
            e,
        ) && (e matches ExportError::Remove { reason: r2 } && r2@ == reason@)),
        _ => true,
    }
}

/// The machine's whole transition relation: what `step` guarantees for the
/// stage it was in.
pub open spec fn step_transition(
    pre: ExportPipeline,
    event: Event,
    post: ExportPipeline,
    a: Action,
) -> bool {
    match pre.stage {
        Stage::Resolving => transition_resolving(pre, event, post, a),
        Stage::Assembling => transition_assembling(pre, event, post, a),
        Stage::Building => transition_building(pre, event, post, a),
        Stage::Cleaning => transition_cleaning(pre, event, post, a),
        Stage::Reporting => transition_reporting(pre, event, post, a),
        Stage::FetchingToken => transition_fetching_token(pre, event, post, a),
        Stage::LoggingIn => transition_logging_in(pre, event, post, a),
        Stage::Pushing => transition_pushing(pre, event, post, a),
        Stage::Removing => transition_removing(pre, event, post, a),
        Stage::Done => true,
        Stage::Failed => true,
    }
}

impl ExportPipeline {
    /// The export has ended.
    pub open spec fn spec_terminal(&self) -> bool {
        self.stage == Stage::Done || self.stage == Stage::Failed
    }

    /// The references uploaded so far, in order.
    pub open spec fn uploaded(&self) -> Seq<Seq<char>> {
        self.remote_targets.deep_view().subrange(0, self.push_index as int)
    }

    /// The machine's invariant; every step preserves it.
    pub open spec fn inv(&self) -> bool {
        &&& self.request.wf()
        &&& self.destroys <= 1
        &&& self.token_exchanges <= 1
        &&& self.push_index <= self.remote_targets.len()
        &&& (!self.root_created ==> self.destroys == 0)
        &&& (self.stage == Stage::Resolving ==> !self.root_created && self.failure is None
            && self.token_exchanges == 0 && self.image is None && self.push_index == 0)
        &&& (self.stage == Stage::Assembling ==> self.root_created && self.destroys == 0
            && self.failure is None && self.token_exchanges == 0 && self.image is None
            && self.push_index == 0)
        &&& (self.stage == Stage::Building ==> self.root_created && self.destroys == 0
            && self.failure is None && self.token_exchanges == 0 && self.image is None
            && self.push_index == 0 && self.pending_name is Some && (self.pending_tags matches Some(
            t,
        ) && t.len() >= 1))
        &&& (self.stage == Stage::Cleaning ==> self.root_created && self.destroys == 1
            && self.token_exchanges == 0 && self.push_index == 0 && (self.failure is None ==> (
        self.image matches Some(img)
            && img.tags.len() >= 1)))
        &&& (self.stage == Stage::Reporting ==> self.root_created && self.destroys == 1
            && self.failure is None && self.token_exchanges == 0 && self.push_index == 0 && (
        self.image matches Some(img)
            && img.tags.len() >= 1))
        &&& (self.stage == Stage::FetchingToken ==> self.root_created && self.destroys == 1
            && self.failure is None && (self.image matches Some(img) && img.tags.len() >= 1)
            && self.push_index == 0 && self.request.push_image && self.request.naming.registry_type
            == RegistryType::Amazon && self.token_exchanges == 1)
        &&& (self.stage == Stage::LoggingIn ==> self.root_created && self.destroys == 1
            && self.failure is None && (self.image matches Some(img) && img.tags.len() >= 1)
            && self.push_index == 0 && self.request.push_image
            && (self.request.naming.registry_type == RegistryType::Amazon
            ==> self.token_exchanges == 1))
        &&& (self.stage == Stage::Pushing ==> self.root_created && self.destroys == 1
            && self.failure is None && self.image is Some && self.push_index
            < self.remote_targets.len() && self.request.push_image
            && (self.request.naming.registry_type == RegistryType::Amazon
            ==> self.token_exchanges == 1))
        &&& (self.stage == Stage::Removing ==> self.root_created && self.destroys == 1
            && self.failure is None && self.request.rm_image && (self.request.push_image
            && self.request.naming.registry_type == RegistryType::Amazon
            ==> self.token_exchanges == 1))
        &&& (self.stage == Stage::Done ==> self.failure is None && self.root_created
            && self.destroys == 1 && (self.request.rm_image <==> self.image is None) && (
        self.request.push_image && self.request.naming.registry_type == RegistryType::Amazon
            ==> self.token_exchanges == 1))
        &&& (self.stage == Stage::Failed ==> self.failure is Some && self.destroys == (
        if self.root_created {
            1u32
        } else {
            0u32
        }))
        &&& (!self.request.push_image ==> self.token_exchanges == 0 && self.push_index == 0)
        &&& (self.request.naming.registry_type != RegistryType::Amazon
            ==> self.token_exchanges == 0)
    }

    /// Which events the machine accepts at its current stage.
    pub open spec fn accepts(&self, event: Event) -> bool {
        match self.stage {
            Stage::Resolving => event matches Event::LookupDone { answers } && answers.len()
                == self.request.spec.idents_or_archives.len(),
            Stage::Assembling => (event matches Event::AssembleOk { primary, .. }
                && primary@.fully_qualified()) || event matches Event::AssembleFailed { .. },
            Stage::Building => event matches Event::BuildOk { .. } || event
                matches Event::BuildFailed { .. },
            Stage::Cleaning => event matches Event::DestroyOk || event
                matches Event::DestroyFailed { .. },
            Stage::Reporting => event matches Event::ReportOk || event
                matches Event::ReportFailed { .. },
            Stage::FetchingToken => event matches Event::TokenExchangeDone { .. } || event
                matches Event::TokenFailed { .. },
            Stage::LoggingIn => event matches Event::LoginOk || event
                matches Event::LoginFailed { .. },
            Stage::Pushing => event matches Event::PushTagOk || event
                matches Event::PushTagFailed { .. },
            Stage::Removing => event matches Event::RemoveOk || event
                matches Event::RemoveFailed { .. },
            Stage::Done => false,
            Stage::Failed => false,
        }
    }

    /// A fresh pipeline for one request, standing at resolution.
    pub fn new(request: ExportRequest) -> (r: ExportPipeline)
        requires
            request.wf(),
        ensures
            r.inv(),
            r.stage == Stage::Resolving,
            r.request == request,
            !r.root_created,
            r.destroys == 0,
            r.token_exchanges == 0,
            r.push_index == 0,
            r.warnings.len() == 0,
            r.failure is None,
            r.image is None,
    {
        ExportPipeline {
            request,
            stage: Stage::Resolving,
            root_created: false,
            destroys: 0,
            token_exchanges: 0,
            pending_name: None,
            pending_tags: None,
            image: None,
            remote_targets: Vec::new(),
            push_index: 0,
            warnings: Vec::new(),
            failure: None,
        }
    }

    /// Performs one decision of the pipeline: consumes what the driver
    /// reported and says what to do next. Every fatal error aborts the
    /// remaining stages but never skips destruction of a created workspace;
    /// uploads already made are never retracted.
    #[verifier::rlimit(100)]
    pub fn step(&mut self, event: Event) -> (a: Action)
        requires
            old(self).inv(),
            !old(self).spec_terminal(),
            old(self).accepts(event),
        ensures
            final(self).inv(),
            final(self).request == old(self).request,
            old(self).root_created ==> final(self).root_created,
            old(self).destroys <= final(self).destroys <= old(self).destroys + 1,
            old(self).token_exchanges <= final(self).token_exchanges,
            old(self).uploaded().is_prefix_of(final(self).uploaded()),
            old(self).warnings@.is_prefix_of(final(self).warnings@),
            final(self).spec_terminal() <==> a matches Action::Finished,
            step_transition(*old(self), event, *final(self), a),
    {
        let st = self.stage;
        match (st, event) {
            (Stage::Resolving, Event::LookupDone { answers }) => {
                match self.request.spec.resolve(&answers) {
                    Ok(units) => {
                        self.stage = Stage::Assembling;
                        self.root_created = true;
                        let base_image = self.request.spec.base_image.clone();
                        Action::Assemble { units, base_image }
                    },
                    Err(e) => {
                        self.stage = Stage::Failed;
                        self.failure = Some(e);
                        Action::Finished
                    },
                }
            },
            (Stage::Assembling, Event::AssembleOk { workspace, primary }) => {
                let name = self.request.naming.image_name(&primary);
                let tags = self.request.naming.tag_list(&primary);
                self.pending_name = Some(name.clone());
                self.pending_tags = Some(clone_string_vec(&tags));
                self.stage = Stage::Building;
                let memory = match &self.request.memory {
                    Some(m) => Some(m.clone()),
                    None => None,
                };
                Action::BuildImage { workspace, name, tags, memory, engine: self.request.engine }
            },
            (Stage::Assembling, Event::AssembleFailed { reason }) => {
                self.stage = Stage::Cleaning;
                self.destroys = self.destroys + 1;
                self.failure = Some(ExportError::BuildRoot { reason });
                Action::Destroy
            },
            (Stage::Building, Event::BuildOk { image_id }) => {
                let name = self.pending_name.take().unwrap();
                let tags = self.pending_tags.take().unwrap();
                self.image = Some(ContainerImage { name, id: image_id, tags });
                self.stage = Stage::Cleaning;
                self.destroys = self.destroys + 1;
                Action::Destroy
            },
            (Stage::Building, Event::BuildFailed { diagnostic }) => {
                self.stage = Stage::Cleaning;
                self.destroys = self.destroys + 1;
                self.failure = Some(ExportError::EngineBuild { diagnostic });
                Action::Destroy
            },
            (Stage::Cleaning, Event::DestroyOk) => {
                self.after_cleanup()
            },
            (Stage::Cleaning, Event::DestroyFailed { reason }) => {
                self.warnings.push(ExportWarning::Cleanup { reason });
                self.after_cleanup()
            },
            (Stage::Reporting, Event::ReportOk) => {
                self.after_report()
            },
            (Stage::Reporting, Event::ReportFailed { reason }) => {
                self.warnings.push(ExportWarning::Report { reason });
                self.after_report()
            },
            (Stage::FetchingToken, Event::TokenExchangeDone { authorization_data }) => {
                match Credentials::from_ecr_response(authorization_data) {
                    Ok(cred) => {
                        self.stage = Stage::LoggingIn;
                        let registry_url = match &self.request.naming.registry_url {
                            Some(u) => Some(u.clone()),
                            None => None,
                        };
                        Action::Login { token: cred.token, registry_url }
                    },
                    Err(e) => {
                        self.stage = Stage::Failed;
                        self.failure = Some(e);
                        Action::Finished
                    },
                }
            },
            (Stage::FetchingToken, Event::TokenFailed { reason }) => {
                self.stage = Stage::Failed;
                self.failure = Some(ExportError::TokenFetchFailed { reason });
                Action::Finished
            },
            (Stage::LoggingIn, Event::LoginOk) => {
                self.stage = Stage::Pushing;
                let targets = self.image.as_ref().unwrap().remote_refs(
                    self.request.naming.registry_url.as_ref(),
                );
                self.remote_targets = targets;
                self.push_index = 0;
                proof {
                    assert(self.remote_targets.deep_view().len() == self.remote_targets@.len());
                    assert(self.image.unwrap().tags.deep_view().len()
                        == self.image.unwrap().tags@.len());
                    assert(self.remote_targets.len() >= 1);
                    assert(self.remote_targets.deep_view()[0] == self.remote_targets@[0]@);
                }
                let target = self.remote_targets[0].clone();
                Action::PushTag { target }
            },
            (Stage::LoggingIn, Event::LoginFailed { reason }) => {
                self.stage = Stage::Failed;
                self.failure = Some(ExportError::Push { reason });
                Action::Finished
            },
            (Stage::Pushing, Event::PushTagOk) => {
                self.push_index = self.push_index + 1;
                proof {
                    assert(old(self).uploaded().is_prefix_of(self.uploaded()));
                }
                if self.push_index < self.remote_targets.len() {
                    proof {
                        assert(self.remote_targets.deep_view()[self.push_index as int]
                            == self.remote_targets@[self.push_index as int]@);
                    }
                    let target = self.remote_targets[self.push_index].clone();
                    Action::PushTag { target }
                } else if self.request.rm_image {
                    self.stage = Stage::Removing;
                    Action::RemoveImage { targets: self.image.as_ref().unwrap().tag_refs() }
                } else {
                    self.stage = Stage::Done;
                    Action::Finished
                }
            },
            (Stage::Pushing, Event::PushTagFailed { reason }) => {
                self.stage = Stage::Failed;
                self.failure = Some(ExportError::Push { reason });
                Action::Finished
            },
            (Stage::Removing, Event::RemoveOk) => {
                self.image = None;
                self.stage = Stage::Done;
                Action::Finished
            },
            (Stage::Removing, Event::RemoveFailed { reason }) => {
                self.stage = Stage::Failed;
                self.failure = Some(ExportError::Remove { reason });
                Action::Finished
            },
            _ => {
                proof {
                    assert(false);
                }
                Action::Finished
            },
        }
    }

    /// What follows workspace destruction: report a pending fatal error, or
    /// go on to write the build report.
    fn after_cleanup(&mut self) -> (a: Action)
        requires
            old(self).inv(),
            old(self).stage == Stage::Cleaning,
        ensures
            final(self).inv(),
            final(self).request == old(self).request,
            final(self).root_created == old(self).root_created,
            final(self).destroys == old(self).destroys,
            final(self).token_exchanges == old(self).token_exchanges,
            final(self).push_index == old(self).push_index,
            final(self).remote_targets == old(self).remote_targets,
            final(self).warnings == old(self).warnings,
            final(self).failure == old(self).failure,
            final(self).image == old(self).image,
            match old(self).failure {
                Some(_) => final(self).stage == Stage::Failed && (a matches Action::Finished),
                None => final(self).stage == Stage::Reporting && (a matches Action::WriteReport {
                    lines,
                } && lines.deep_view() == spec_report_lines(
                    old(self).image.unwrap().name@,
                    old(self).image.unwrap().id@,
                    old(self).image.unwrap().tags.deep_view(),
                )),
            },
    {
        if self.failure.is_some() {
            self.stage = Stage::Failed;
            Action::Finished
        } else {
            self.stage = Stage::Reporting;
            let lines = self.image.as_ref().unwrap().report_lines();
            Action::WriteReport { lines }
        }
    }

    /// What follows the report: resolve credentials and publish, remove the
    /// local image, or finish.
    fn after_report(&mut self) -> (a: Action)
        requires
            old(self).inv(),
            old(self).stage == Stage::Reporting,
        ensures
            final(self).inv(),
            final(self).request == old(self).request,
            final(self).root_created == old(self).root_created,
            final(self).destroys == old(self).destroys,
            final(self).push_index == old(self).push_index,
            final(self).remote_targets == old(self).remote_targets,
            final(self).warnings == old(self).warnings,
            final(self).failure is None,
            final(self).image == old(self).image,
            old(self).token_exchanges <= final(self).token_exchanges,
            if old(self).request.push_image {
                if old(self).request.naming.registry_type == RegistryType::Amazon {
                    final(self).stage == Stage::FetchingToken && final(self).token_exchanges == 1
                        && (a matches Action::FetchToken { username, password } && username@ == old(self).request.username.unwrap()@ && password@ == old(self).request.password.unwrap()@)
                } else {
                    final(self).stage == Stage::LoggingIn && (a matches Action::Login {
                        token,
                        registry_url,
                    } && token@ == spec_basic_token(
                        old(self).request.username.unwrap()@,
                        old(self).request.password.unwrap()@,
                    ) && (match (registry_url, old(self).request.naming.registry_url) {
                        (Some(u), Some(ru)) => u@ == ru@,
                        (None, None) => true,
                        _ => false,
                    }))
                }
            } else if old(self).request.rm_image {
                final(self).stage == Stage::Removing && (a matches Action::RemoveImage { targets }
                    && targets.deep_view() == spec_tag_refs(
                    old(self).image.unwrap().name@,
                    old(self).image.unwrap().tags.deep_view(),
                ))
            } else {
                final(self).stage == Stage::Done && (a matches Action::Finished)
            },
    {
        if self.request.push_image {
            if self.request.naming.registry_type == RegistryType::Amazon {
                self.token_exchanges = self.token_exchanges + 1;
                self.stage = Stage::FetchingToken;
                let username = self.request.username.as_ref().unwrap().clone();
                let password = self.request.password.as_ref().unwrap().clone();
                Action::FetchToken { username, password }
            } else {
                self.stage = Stage::LoggingIn;
                let cred = Credentials::from_username_password(
                    self.request.username.as_ref().unwrap().as_str(),
                    self.request.password.as_ref().unwrap().as_str(),
                );
                let registry_url = match &self.request.naming.registry_url {
                    Some(u) => Some(u.clone()),
                    None => None,
                };
                Action::Login { token: cred.token, registry_url }
            }
        } else if self.request.rm_image {
            self.stage = Stage::Removing;
            Action::RemoveImage { targets: self.image.as_ref().unwrap().tag_refs() }
        } else {
            self.stage = Stage::Done;
            Action::Finished
        }
    }

    /// Workspace destruction is requested exactly once per export that
    /// created a workspace — on success and on every fatal exit alike — and
    /// never when resolution failed before a workspace existed.
    pub proof fn lemma_cleanup_exactly_once(&self)
        requires
            self.inv(),
            self.spec_terminal(),
        ensures
            self.root_created ==> self.destroys == 1,
            !self.root_created ==> self.destroys == 0,
            self.stage == Stage::Done ==> self.root_created && self.destroys == 1,
    {
    }

    /// The cloud-managed registry kind exchanges credentials for a token at
    /// most once per export, exactly once when such an export publishes, and
    /// never when no push was requested or the kind is a generic one.
    pub proof fn lemma_single_token_exchange(&self)
        requires
            self.inv(),
        ensures
            self.token_exchanges <= 1,
            !self.request.push_image ==> self.token_exchanges == 0,
            self.request.naming.registry_type != RegistryType::Amazon ==> self.token_exchanges
                == 0,
            self.stage == Stage::Done && self.request.push_image
                && self.request.naming.registry_type == RegistryType::Amazon
                ==> self.token_exchanges == 1,
    {
    }

    /// The export has ended.
    pub fn is_terminal(&self) -> (r: bool)
        ensures
            r == self.spec_terminal(),
    {
        self.stage == Stage::Done || self.stage == Stage::Failed
    }

    /// The first action of an export: ask the depot about every reference.
    pub fn start(&self) -> (a: Action)
        requires
            self.stage == Stage::Resolving,
        ensures
            a matches Action::Lookup { references } && references.deep_view()
                == self.request.spec.idents_or_archives.deep_view(),
    {
        Action::Lookup { references: clone_string_vec(&self.request.spec.idents_or_archives) }
    }
}

} // verus!
