//! The orchestrator: one run's state, from a parsed request to an
//! exit disposition.
//!
//! A run advances through fixed phases. Each step of outside work —
//! a network request, a disk observation, a syscall, the child's exit
//! — is performed by the binary, which feeds the result back in as a
//! plain value; every decision in between is made and verified here.
//! The phase gates make the pipeline's ordering a proved property:
//! `wf` holds of a fresh run, every method preserves it, and the laws
//! at the end of this module read the ordering guarantees off it.

use vstd::prelude::*;

use crate::RunError;
use crate::image::ImageRef;
use crate::image::is_parse_of;
use crate::image::parse_image_ref;
use crate::isolate::DevState;
use crate::layerfs::FileImageV;
use crate::layerfs::RootFs;
use crate::layerfs::apply_writes;
use crate::layerfs::extract_layer;
use crate::layerfs::gunzip_of;
use crate::layerfs::tar_entries_of;
use crate::registry::LayerRef;
use crate::registry::Manifest;
use crate::registry::blob_url;
use crate::registry::manifest_media_type;
use crate::registry::manifest_url;
use crate::registry::spec_manifest_media_type;
use crate::registry::token_scope;
use crate::registry::token_service;
use crate::registry::token_url;
use crate::runner::ExitOutcome;
use crate::runner::RunDisposition;
use crate::runner::is_rooted_path;
use crate::runner::resolve_exec_path;
use crate::runner::spec_dispose;

verus! {

/// Where one run stands. The phases are a strict forward sequence;
/// a failure in any of them ends the run in `Failed`.
#[derive(Clone, Copy, PartialEq, Eq, Structural, Debug)]
pub enum Phase {
    /// No token yet: the next step is the token request.
    NeedToken,
    /// Token held: the next step is the manifest request.
    NeedManifest,
    /// Manifest accepted: the next step is the next layer's blob.
    NeedLayers,
    /// All layers merged: the next step is preparing the root.
    NeedPrepare,
    /// Root prepared: the next step is the root change.
    NeedConfine,
    /// Confined: the next step is the PID-namespace unshare.
    NeedUnshare,
    /// Isolated: the next step is spawning the user command.
    NeedSpawn,
    /// The child has ended and its outcome was disposed of.
    Complete,
    /// Some step failed; `failure` names it.
    Failed,
}

/// The token request the binary is to send: a GET of `url` with the
/// two query parameters.
pub struct TokenRequest {
    pub url: String,
    pub service: String,
    pub scope: String,
}

/// The manifest request: a GET of `url` with bearer authorisation and
/// `accept` as the `Accept` header.
pub struct ManifestRequest {
    pub url: String,
    pub accept: String,
    pub bearer: String,
}

/// The blob request: a GET of `url` with bearer authorisation.
pub struct BlobRequest {
    pub url: String,
    pub digest: String,
    pub bearer: String,
}

/// The spawn the binary is to perform: start `path` inside the root,
/// with the run's argument list, inheriting standard I/O.
pub struct SpawnRequest {
    pub path: String,
}

/// One run's whole state.
pub struct RunState {
    /// The parsed image reference. Immutable for the run.
    pub image: ImageRef,
    /// The user command path, as given. Immutable for the run.
    pub command: String,
    /// The user command's arguments. Immutable for the run.
    pub args: Vec<String>,
    /// The pull token, once obtained.
    pub token: Option<String>,
    /// The media type of the manifest this run accepted, once one was.
    pub accepted_media: Option<String>,
    /// The accepted manifest's layers, in stacking order.
    pub layers: Vec<LayerRef>,
    /// How many layers are already merged into `fs`.
    pub next_layer: usize,
    /// The root filesystem the layers merge into.
    pub fs: RootFs,
    /// Whether the dev stubs were confirmed present on disk.
    pub dev_ready: bool,
    /// The failure that ended the run, if one did.
    pub failure: Option<RunError>,
    /// Where the run stands.
    pub phase: Phase,
}

impl RunState {
    /// A manifest was accepted, and its declared media type equals
    /// the one supported schema.
    pub open spec fn manifest_accepted(self) -> bool {
        self.accepted_media matches Some(m) && m@ == spec_manifest_media_type()
    }

    /// The run ended in failure `e`.
    pub open spec fn failed_with(self, e: RunError) -> bool {
        &&& self.phase == Phase::Failed
        &&& self.failure == Some(e)
    }

    /// What every phase guarantees. Established by `new`, preserved
    /// by every method.
    pub open spec fn wf(self) -> bool {
        &&& (self.phase == Phase::NeedToken ==> self.token is None)
        &&& (self.phase == Phase::NeedManifest ==> self.token is Some)
        &&& (self.phase == Phase::NeedLayers ==> {
            &&& self.token is Some
            &&& self.manifest_accepted()
            &&& self.next_layer < self.layers@.len()
        })
        &&& (self.phase == Phase::NeedPrepare ==> self.manifest_accepted())
        &&& (self.phase == Phase::NeedConfine ==> self.manifest_accepted() && self.dev_ready)
        &&& (self.phase == Phase::NeedUnshare ==> self.manifest_accepted() && self.dev_ready)
        &&& (self.phase == Phase::NeedSpawn ==> self.manifest_accepted() && self.dev_ready)
        &&& (self.phase == Phase::Complete ==> self.manifest_accepted() && self.dev_ready)
        &&& (self.phase == Phase::Failed ==> self.failure is Some)
        &&& (self.phase != Phase::Failed ==> self.failure is None)
    }

    /// The parts of the request that no step may change.
    pub open spec fn same_request(self, other: RunState) -> bool {
        &&& self.image == other.image
        &&& self.command == other.command
        &&& self.args == other.args
    }

    /// Begin a run: parse the image reference, hold the command, and
    /// wait for a token.
    pub fn new(image: &str, command: String, args: Vec<String>) -> (r: RunState)
        ensures
            r.wf(),
            is_parse_of(image@, r.image),
            r.command == command,
            r.args == args,
            r.token is None,
            r.accepted_media is None,
            r.layers@.len() == 0,
            r.next_layer == 0,
            r.fs.writes() == Seq::<FileImageV>::empty(),
            r.fs@ == Map::<Seq<char>, FileImageV>::empty(),
            !r.dev_ready,
            r.failure is None,
            r.phase == Phase::NeedToken,
    {
        RunState {
            image: parse_image_ref(image),
            command,
            args,
            token: None,
            accepted_media: None,
            layers: Vec::new(),
            next_layer: 0,
            fs: RootFs::new(),
            dev_ready: false,
            failure: None,
            phase: Phase::NeedToken,
        }
    }

    /// The run's current phase.
    pub fn current_phase(&self) -> (p: Phase)
        ensures
            p == self.phase,
    {
        self.phase
    }

    /// The token request: the token endpoint, scoped to pull access
    /// on the run's library repository.
    pub fn token_request(&self) -> (r: TokenRequest)
        requires
            self.phase == Phase::NeedToken,
        ensures
            r.url@ == "https://auth.docker.io/token"@,
            r.service@ == "registry.docker.io"@,
            r.scope@ == "repository:library/"@ + self.image.repository@ + ":pull"@,
    {
        TokenRequest {
            url: token_url(),
            service: token_service(),
            scope: token_scope(self.image.repository.as_str()),
        }
    }

    /// Take the token response: the token body's `token` field, or
    /// nothing on transport failure or a missing field.
    pub fn provide_token(&mut self, token: Option<String>) -> (r: Result<(), RunError>)
        requires
            old(self).wf(),
            old(self).phase == Phase::NeedToken,
        ensures
            final(self).wf(),
            final(self).same_request(*old(self)),
            final(self).accepted_media == old(self).accepted_media,
            final(self).layers == old(self).layers,
            final(self).next_layer == old(self).next_layer,
            final(self).fs == old(self).fs,
            final(self).dev_ready == old(self).dev_ready,
            token is Some ==> {
                &&& r == Ok::<(), RunError>(())
                &&& final(self).token == token
                &&& final(self).phase == Phase::NeedManifest
                &&& final(self).failure is None
            },
            token is None ==> {
                &&& r == Err::<(), RunError>(RunError::Auth)
                &&& final(self).failed_with(RunError::Auth)
                &&& final(self).token is None
            },
    {
        match token {
            Some(t) => {
                self.token = Some(t);
                self.phase = Phase::NeedManifest;
                Ok(())
            },
            None => {
                self.failure = Some(RunError::Auth);
                self.phase = Phase::Failed;
                Err(RunError::Auth)
            },
        }
    }

    /// The manifest request for the run's repository and tag, with
    /// the `Accept` header fixed to the one supported schema.
    pub fn manifest_request(&self) -> (r: ManifestRequest)
        requires
            self.wf(),
            self.phase == Phase::NeedManifest,
        ensures
            r.url@ == "https://registry.hub.docker.com/v2/library/"@ + self.image.repository@
                + "/manifests/"@ + self.image.tag@,
            r.accept@ == spec_manifest_media_type(),
            self.token matches Some(t) && r.bearer@ == t@,
    {
        ManifestRequest {
            url: manifest_url(self.image.repository.as_str(), self.image.tag.as_str()),
            accept: manifest_media_type(),
            bearer: self.token.as_ref().unwrap().clone(),
        }
    }

    /// Take the manifest response. A manifest whose declared media
    /// type differs from the supported schema is rejected here, while
    /// no blob has been requested yet.
    pub fn provide_manifest(&mut self, m: Option<Manifest>) -> (r: Result<(), RunError>)
        requires
            old(self).wf(),
            old(self).phase == Phase::NeedManifest,
        ensures
            final(self).wf(),
            final(self).same_request(*old(self)),
            final(self).token == old(self).token,
            final(self).fs == old(self).fs,
            final(self).dev_ready == old(self).dev_ready,
            m is None ==> {
                &&& r == Err::<(), RunError>(RunError::ManifestFetch)
                &&& final(self).failed_with(RunError::ManifestFetch)
                &&& final(self).accepted_media == old(self).accepted_media
                &&& final(self).layers == old(self).layers
                &&& final(self).next_layer == old(self).next_layer
            },
            m matches Some(man) ==> (!man.media_ok() ==> {
                &&& r == Err::<(), RunError>(RunError::MediaTypeMismatch)
                &&& final(self).failed_with(RunError::MediaTypeMismatch)
                &&& final(self).accepted_media == old(self).accepted_media
                &&& final(self).layers == old(self).layers
                &&& final(self).next_layer == old(self).next_layer
            }),
            m matches Some(man) ==> (man.media_ok() ==> {
                &&& r == Ok::<(), RunError>(())
                &&& final(self).accepted_media == Some(man.media_type)
                &&& final(self).layers == man.layers
                &&& final(self).next_layer == 0
                &&& final(self).failure is None
                &&& final(self).phase == (if man.layers@.len() > 0 {
                    Phase::NeedLayers
                } else {
                    Phase::NeedPrepare
                })
            }),
    {
        match m {
            None => {
                self.failure = Some(RunError::ManifestFetch);
                self.phase = Phase::Failed;
                Err(RunError::ManifestFetch)
            },
            Some(man) => {
                if !man.check_media_type() {
                    self.failure = Some(RunError::MediaTypeMismatch);
                    self.phase = Phase::Failed;
                    Err(RunError::MediaTypeMismatch)
                } else {
                    self.accepted_media = Some(man.media_type);
                    self.layers = man.layers;
                    self.next_layer = 0;
                    self.phase = if self.layers.len() > 0 {
                        Phase::NeedLayers
                    } else {
                        Phase::NeedPrepare
                    };
                    Ok(())
                }
            },
        }
    }

    /// The blob request for the next layer, in manifest order.
    pub fn blob_request(&self) -> (r: BlobRequest)
        requires
            self.wf(),
            self.phase == Phase::NeedLayers,
        ensures
            r.digest@ == self.layers@[self.next_layer as int].digest@,
            r.url@ == "https://registry.hub.docker.com/v2/library/"@ + self.image.repository@
                + "/blobs/"@ + self.layers@[self.next_layer as int].digest@,
            self.token matches Some(t) && r.bearer@ == t@,
    {
        let digest = self.layers[self.next_layer].digest.clone();
        BlobRequest {
            url: blob_url(self.image.repository.as_str(), digest.as_str()),
            digest,
            bearer: self.token.as_ref().unwrap().clone(),
        }
    }

    /// Take the next layer's blob and merge it into the root, in
    /// manifest order: the next layer is not touched before this one
    /// is extracted in full.
    pub fn provide_blob(&mut self, blob: Option<Vec<u8>>) -> (r: Result<(), RunError>)
        requires
            old(self).wf(),
            old(self).phase == Phase::NeedLayers,
        ensures
            final(self).wf(),
            final(self).same_request(*old(self)),
            final(self).token == old(self).token,
            final(self).accepted_media == old(self).accepted_media,
            final(self).layers == old(self).layers,
            final(self).dev_ready == old(self).dev_ready,
            blob is None ==> {
                &&& r == Err::<(), RunError>(RunError::BlobDownload)
                &&& final(self).failed_with(RunError::BlobDownload)
                &&& final(self).fs == old(self).fs
                &&& final(self).next_layer == old(self).next_layer
            },
            blob matches Some(bytes) ==> match gunzip_of(bytes@) {
                Option::None => {
                    &&& r == Err::<(), RunError>(RunError::BadGzip)
                    &&& final(self).failed_with(RunError::BadGzip)
                    &&& final(self).fs == old(self).fs
                    &&& final(self).next_layer == old(self).next_layer
                },
                Option::Some(t) => match tar_entries_of(t) {
                    Option::None => {
                        &&& r == Err::<(), RunError>(RunError::BadArchive)
                        &&& final(self).failed_with(RunError::BadArchive)
                        &&& final(self).fs == old(self).fs
                        &&& final(self).next_layer == old(self).next_layer
                    },
                    Option::Some(es) => {
                        &&& r == Ok::<(), RunError>(())
                        &&& final(self).fs@ == apply_writes(old(self).fs@, es)
                        &&& final(self).fs.writes() == old(self).fs.writes() + es
                        &&& final(self).next_layer == old(self).next_layer + 1
                        &&& final(self).failure is None
                        &&& final(self).phase == (if old(self).next_layer + 1 < old(
                            self,
                        ).layers@.len() {
                            Phase::NeedLayers
                        } else {
                            Phase::NeedPrepare
                        })
                    },
                },
            },
    {
        match blob {
            None => {
                self.failure = Some(RunError::BlobDownload);
                self.phase = Phase::Failed;
                Err(RunError::BlobDownload)
            },
            Some(bytes) => {
                match extract_layer(bytes.as_slice(), &mut self.fs) {
                    Err(e) => {
                        self.failure = Some(e);
                        self.phase = Phase::Failed;
                        Err(e)
                    },
                    Ok(()) => {
                        let n = self.layers.len();
                        self.next_layer = self.next_layer + 1;
                        self.phase = if self.next_layer < n {
                            Phase::NeedLayers
                        } else {
                            Phase::NeedPrepare
                        };
                        Ok(())
                    },
                }
            },
        }
    }

    /// Take what the binary observed of the root's dev stubs once it
    /// performed the planned creations. A root still missing either
    /// stub is rejected: the run never reaches confinement with it.
    pub fn provide_prepared(&mut self, observed: DevState) -> (r: Result<(), RunError>)
        requires
            old(self).wf(),
            old(self).phase == Phase::NeedPrepare,
        ensures
            final(self).wf(),
            final(self).same_request(*old(self)),
            final(self).token == old(self).token,
            final(self).accepted_media == old(self).accepted_media,
            final(self).layers == old(self).layers,
            final(self).next_layer == old(self).next_layer,
            final(self).fs == old(self).fs,
            observed.ready() ==> {
                &&& r == Ok::<(), RunError>(())
                &&& final(self).phase == Phase::NeedConfine
                &&& final(self).dev_ready
                &&& final(self).failure is None
            },
            !observed.ready() ==> {
                &&& r == Err::<(), RunError>(RunError::Isolation)
                &&& final(self).failed_with(RunError::Isolation)
                &&& final(self).dev_ready == old(self).dev_ready
            },
    {
        if observed.dev_dir && observed.dev_null {
            self.dev_ready = true;
            self.phase = Phase::NeedConfine;
            Ok(())
        } else {
            self.failure = Some(RunError::Isolation);
            self.phase = Phase::Failed;
            Err(RunError::Isolation)
        }
    }

    /// Take the root change's outcome. Failure — commonly a missing
    /// privilege — is fatal and never retried.
    pub fn provide_confined(&mut self, ok: bool) -> (r: Result<(), RunError>)
        requires
            old(self).wf(),
            old(self).phase == Phase::NeedConfine,
        ensures
            final(self).wf(),
            final(self).same_request(*old(self)),
            final(self).token == old(self).token,
            final(self).accepted_media == old(self).accepted_media,
            final(self).layers == old(self).layers,
            final(self).next_layer == old(self).next_layer,
            final(self).fs == old(self).fs,
            final(self).dev_ready == old(self).dev_ready,
            ok ==> r == Ok::<(), RunError>(()) && final(self).phase == Phase::NeedUnshare
                && final(self).failure is None,
            !ok ==> r == Err::<(), RunError>(RunError::Isolation) && final(self).failed_with(
                RunError::Isolation,
            ),
    {
        if ok {
            self.phase = Phase::NeedUnshare;
            Ok(())
        } else {
            self.failure = Some(RunError::Isolation);
            self.phase = Phase::Failed;
            Err(RunError::Isolation)
        }
    }

    /// Take the PID-namespace unshare's outcome. Best effort: failure
    /// does not end the run, it only warrants a warning.
    pub fn provide_unshared(&mut self, ok: bool) -> (warned: bool)
        requires
            old(self).wf(),
            old(self).phase == Phase::NeedUnshare,
        ensures
            final(self).wf(),
            final(self).same_request(*old(self)),
            final(self).token == old(self).token,
            final(self).accepted_media == old(self).accepted_media,
            final(self).layers == old(self).layers,
            final(self).next_layer == old(self).next_layer,
            final(self).fs == old(self).fs,
            final(self).dev_ready == old(self).dev_ready,
            final(self).failure == old(self).failure,
            final(self).phase == Phase::NeedSpawn,
            warned == !ok,
    {
        self.phase = Phase::NeedSpawn;
        !ok
    }

    /// The spawn: the user command rooted at `/`, as it resolves
    /// after the root change.
    pub fn spawn_request(&self) -> (r: SpawnRequest)
        requires
            self.wf(),
            self.phase == Phase::NeedSpawn,
        ensures
            is_rooted_path(self.command@, r.path@),
    {
        SpawnRequest { path: resolve_exec_path(self.command.as_str()) }
    }

    /// Take the child's outcome, or nothing when it could not be
    /// started, and dispose of the run: success on exit code 0 or
    /// death by signal, exact mirroring of a nonzero exit code.
    pub fn provide_exit(&mut self, outcome: Option<ExitOutcome>) -> (r: Result<
        RunDisposition,
        RunError,
    >)
        requires
            old(self).wf(),
            old(self).phase == Phase::NeedSpawn,
        ensures
            final(self).wf(),
            final(self).same_request(*old(self)),
            final(self).token == old(self).token,
            final(self).accepted_media == old(self).accepted_media,
            final(self).layers == old(self).layers,
            final(self).next_layer == old(self).next_layer,
            final(self).fs == old(self).fs,
            final(self).dev_ready == old(self).dev_ready,
            outcome is None ==> {
                &&& r == Err::<RunDisposition, RunError>(RunError::Spawn)
                &&& final(self).failed_with(RunError::Spawn)
            },
            outcome matches Some(o) ==> {
                &&& r == Ok::<RunDisposition, RunError>(spec_dispose(o))
                &&& final(self).phase == Phase::Complete
                &&& final(self).failure is None
            },
    {
        match outcome {
            None => {
                self.failure = Some(RunError::Spawn);
                self.phase = Phase::Failed;
                Err(RunError::Spawn)
            },
            Some(o) => {
                self.failure = None;
                self.phase = Phase::Complete;
                Ok(crate::runner::dispose_exit(o))
            },
        }
    }
}

/// No blob before a valid manifest: a run can only issue a blob
/// request in `NeedLayers`, and every well-formed state in that phase
/// holds an accepted manifest media type equal to the one supported
/// schema. `wf` holds of `new`'s result and every method preserves
/// it, so this covers every reachable run.
pub proof fn lemma_blob_only_after_valid_manifest(r: RunState)
    requires
        r.wf(),
        r.phase == Phase::NeedLayers,
    ensures
        r.accepted_media matches Some(m) && m@ == spec_manifest_media_type(),
{
}

/// No confinement before preparation: a run can only attempt the root
/// change in `NeedConfine`, and every well-formed state in that phase
/// has the dev stubs confirmed present. `wf` holds of `new`'s result
/// and every method preserves it, so this covers every reachable run.
pub proof fn lemma_confine_only_after_prepare(r: RunState)
    requires
        r.wf(),
        r.phase == Phase::NeedConfine,
    ensures
        r.dev_ready,
{
}

} // verus!
