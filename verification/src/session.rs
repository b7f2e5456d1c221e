//! A signing session: the decisions of manifest generation as a plan of
//! steps, and a state machine that asks its caller for each digest and
//! signature in turn and files the answers into the manifest.
use vstd::prelude::*;
use crate::error::AuthManifestError;
use crate::helper::SignaturePair;
use crate::image::{
    ImageDigest, ImageEccPrivKey, ImageEccPubKey, ImageEccSignature, ImageLmsPrivKey,
    ImageLmsSignature,
};
use crate::layout::{collection_bytes, pub_keys_bytes, vendor_signed_bytes};
use crate::manifest::{AuthManifestSignatures, AuthorizationManifest};

verus! {

/// Where a signature goes.
#[derive(Clone, Copy, Debug, PartialEq, Eq, Structural)]
pub enum SigSlot {
    /// Signatures over the vendor manifest public keys.
    VendorPubKeys,
    /// Signatures over the owner manifest public keys.
    OwnerPubKeys,
    /// Vendor signatures over the image metadata collection.
    VendorImageMetadata,
    /// Owner signatures over the image metadata collection.
    OwnerImageMetadata,
    /// Signatures kept apart from the manifest (security-version signatures).
    Detached,
}

/// One step of a signing plan.
#[allow(inconsistent_fields)]
#[derive(Debug)]
pub enum PlanStep {
    /// Hash these bytes; the digest is what the following signatures sign.
    Digest(Vec<u8>),
    /// Sign the current digest with an ECC key.
    EccSign { priv_key: ImageEccPrivKey, pub_key: ImageEccPubKey, slot: SigSlot },
    /// Sign the current digest with an LMS key.
    LmsSign { priv_key: ImageLmsPrivKey, slot: SigSlot },
    /// Have an external helper sign the current digest.
    HelperSign { helper_cmd: String, by_file: Option<bool>, is_ecdsa384: bool, slot: SigSlot },
    /// Generation stops here with this error.
    Fail(AuthManifestError),
}

/// A plan step as a mathematical value.
#[allow(inconsistent_fields)]
pub enum StepView {
    Digest(Seq<u8>),
    EccSign { priv_key: ImageEccPrivKey, pub_key: ImageEccPubKey, slot: SigSlot },
    LmsSign { priv_key: ImageLmsPrivKey, slot: SigSlot },
    HelperSign { helper_cmd: Seq<char>, by_file: Option<bool>, is_ecdsa384: bool, slot: SigSlot },
    Fail(AuthManifestError),
}

impl View for PlanStep {
    type V = StepView;

    open spec fn view(&self) -> StepView {
        match self {
            PlanStep::Digest(data) => StepView::Digest(data@),
            PlanStep::EccSign { priv_key, pub_key, slot } => StepView::EccSign {
                priv_key: *priv_key,
                pub_key: *pub_key,
                slot: *slot,
            },
            PlanStep::LmsSign { priv_key, slot } => StepView::LmsSign { priv_key: *priv_key, slot: *slot },
            PlanStep::HelperSign { helper_cmd, by_file, is_ecdsa384, slot } => StepView::HelperSign {
                helper_cmd: helper_cmd@,
                by_file: *by_file,
                is_ecdsa384: *is_ecdsa384,
                slot: *slot,
            },
            PlanStep::Fail(e) => StepView::Fail(*e),
        }
    }
}

/// The views of a list of steps.
pub open spec fn steps_view(steps: Seq<PlanStep>) -> Seq<StepView> {
    steps.map_values(|s: PlanStep| s@)
}

/// Work the session asks its caller to do.
#[allow(inconsistent_fields)]
#[derive(Debug)]
pub enum Request {
    /// Compute the SHA-384 digest of `data`; answer with `Reply::Digest`.
    Sha384Digest { data: Vec<u8> },
    /// Sign `digest` with an ECDSA P-384 key; answer with `Reply::EccSignature`.
    Ecdsa384Sign { digest: ImageDigest, priv_key: ImageEccPrivKey, pub_key: ImageEccPubKey },
    /// Sign `digest` with an LMS key; answer with `Reply::LmsSignature`.
    LmsSign { digest: ImageDigest, priv_key: ImageLmsPrivKey },
    /// Run an external signing helper on `digest`; answer with `Reply::Helper`.
    SignWithHelper { digest: ImageDigest, helper_cmd: String, by_file: Option<bool>, is_ecdsa384: bool },
}

/// What the session wants next.
#[derive(Debug)]
pub enum NextStep {
    Request(Request),
    /// Every step is done; the results can be taken.
    Done,
    /// Generation failed.
    Failed(AuthManifestError),
}

/// The caller's answer to a request.
#[derive(Clone, Copy, Debug)]
pub enum Reply {
    Digest(ImageDigest),
    EccSignature(ImageEccSignature),
    LmsSignature(ImageLmsSignature),
    Helper(SignaturePair),
}

/// A signing session: a plan, how far it has got, the current digest, the
/// manifest being signed, detached signatures, and the error if it failed.
#[derive(Debug)]
pub struct SigningSession {
    steps: Vec<PlanStep>,
    pos: usize,
    digest: ImageDigest,
    manifest: AuthorizationManifest,
    detached: AuthManifestSignatures,
    error: Option<AuthManifestError>,
}

/// A signing session as a mathematical value.
pub struct SessionView {
    pub steps: Seq<StepView>,
    pub pos: int,
    pub digest: ImageDigest,
    pub manifest: AuthorizationManifest,
    pub detached: AuthManifestSignatures,
    pub error: Option<AuthManifestError>,
}

impl View for SigningSession {
    type V = SessionView;

    closed spec fn view(&self) -> SessionView {
        SessionView {
            steps: steps_view(self.steps@),
            pos: self.pos as int,
            digest: self.digest,
            manifest: self.manifest,
            detached: self.detached,
            error: self.error,
        }
    }
}

/// The signatures held in a slot.
pub open spec fn signatures_at(v: SessionView, slot: SigSlot) -> AuthManifestSignatures {
    match slot {
        SigSlot::VendorPubKeys => v.manifest.preamble.vendor_pub_keys_signatures,
        SigSlot::OwnerPubKeys => v.manifest.preamble.owner_pub_keys_signatures,
        SigSlot::VendorImageMetadata => v.manifest.preamble.vendor_image_metdata_signatures,
        SigSlot::OwnerImageMetadata => v.manifest.preamble.owner_image_metdata_signatures,
        SigSlot::Detached => v.detached,
    }
}

/// The session with the signatures of a slot replaced.
pub open spec fn with_signatures(v: SessionView, slot: SigSlot, s: AuthManifestSignatures) -> SessionView {
    let p = v.manifest.preamble;
    match slot {
        SigSlot::VendorPubKeys => SessionView {
            manifest: AuthorizationManifest {
                preamble: crate::manifest::AuthManifestPreamble { vendor_pub_keys_signatures: s, ..p },
                ..v.manifest
            },
            ..v
        },
        SigSlot::OwnerPubKeys => SessionView {
            manifest: AuthorizationManifest {
                preamble: crate::manifest::AuthManifestPreamble { owner_pub_keys_signatures: s, ..p },
                ..v.manifest
            },
            ..v
        },
        SigSlot::VendorImageMetadata => SessionView {
            manifest: AuthorizationManifest {
                preamble: crate::manifest::AuthManifestPreamble { vendor_image_metdata_signatures: s, ..p },
                ..v.manifest
            },
            ..v
        },
        SigSlot::OwnerImageMetadata => SessionView {
            manifest: AuthorizationManifest {
                preamble: crate::manifest::AuthManifestPreamble { owner_image_metdata_signatures: s, ..p },
                ..v.manifest
            },
            ..v
        },
        SigSlot::Detached => SessionView { detached: s, ..v },
    }
}

/// The session with the ECC signature of a slot replaced and the plan
/// advanced by one step.
pub open spec fn file_ecc(v: SessionView, slot: SigSlot, sig: ImageEccSignature) -> SessionView {
    let w = with_signatures(v, slot, AuthManifestSignatures { ecc_sig: sig, ..signatures_at(v, slot) });
    SessionView { pos: v.pos + 1, ..w }
}

/// The session with the LMS signature of a slot replaced and the plan
/// advanced by one step.
pub open spec fn file_lms(v: SessionView, slot: SigSlot, sig: ImageLmsSignature) -> SessionView {
    let w = with_signatures(v, slot, AuthManifestSignatures { lms_sig: sig, ..signatures_at(v, slot) });
    SessionView { pos: v.pos + 1, ..w }
}

/// The session stopped with an error.
pub open spec fn failed(v: SessionView, e: AuthManifestError) -> SessionView {
    SessionView { error: Some(e), ..v }
}

/// What answering `reply` does to a session: a failed session stays as it
/// is; a digest becomes the current digest; a signature is filed into the
/// slot its step names; a helper answer must hold the kind of signature
/// asked for; any other answer, or an answer when nothing was asked, fails
/// the session.
pub open spec fn spec_answer(v: SessionView, reply: Reply) -> SessionView {
    if v.error is Some {
        v
    } else if !(0 <= v.pos < v.steps.len()) {
        failed(v, AuthManifestError::UnexpectedReply)
    } else {
        match (v.steps[v.pos], reply) {
            (StepView::Digest(_), Reply::Digest(d)) => SessionView { digest: d, pos: v.pos + 1, ..v },
            (StepView::EccSign { slot, .. }, Reply::EccSignature(sig)) => file_ecc(v, slot, sig),
            (StepView::LmsSign { slot, .. }, Reply::LmsSignature(sig)) => file_lms(v, slot, sig),
            (StepView::HelperSign { is_ecdsa384, slot, .. }, Reply::Helper(pair)) => if is_ecdsa384 {
                match pair.ecdsa {
                    Some(sig) => file_ecc(v, slot, sig),
                    None => failed(v, AuthManifestError::ExpectedEccSignature),
                }
            } else {
                match pair.lms {
                    Some(sig) => file_lms(v, slot, sig),
                    None => failed(v, AuthManifestError::ExpectedLmsSignature),
                }
            },
            (StepView::Fail(e), _) => failed(v, e),
            _ => failed(v, AuthManifestError::UnexpectedReply),
        }
    }
}

/// Whether `r` is what the session asks for next: its error if it failed;
/// `Done` once every step is done; else the request of the current step,
/// signing steps signing the current digest.
pub open spec fn spec_next_is(v: SessionView, r: NextStep) -> bool {
    if v.error is Some {
        r == NextStep::Failed(v.error->0)
    } else if v.pos >= v.steps.len() {
        r is Done
    } else {
        match v.steps[v.pos] {
            StepView::Digest(data) => r matches NextStep::Request(Request::Sha384Digest { data: d }) && d@ == data,
            StepView::EccSign { priv_key, pub_key, .. } => r == NextStep::Request(
                Request::Ecdsa384Sign { digest: v.digest, priv_key, pub_key },
            ),
            StepView::LmsSign { priv_key, .. } => r == NextStep::Request(
                Request::LmsSign { digest: v.digest, priv_key },
            ),
            StepView::HelperSign { helper_cmd, by_file, is_ecdsa384, .. } => r matches NextStep::Request(
                Request::SignWithHelper { digest, helper_cmd: c, by_file: b, is_ecdsa384: e },
            ) && digest == v.digest && c@ == helper_cmd && b == by_file && e == is_ecdsa384,
            StepView::Fail(e) => r == NextStep::Failed(e),
        }
    }
}

/// The kind of a step, without its data.
#[derive(Clone, Copy)]
enum StepKind {
    Digest,
    Ecc(SigSlot),
    Lms(SigSlot),
    Helper(bool, SigSlot),
    Fail(AuthManifestError),
}

impl SigningSession {
    /// A session at the start of a plan.
    pub(crate) fn start(
        steps: Vec<PlanStep>,
        digest: ImageDigest,
        manifest: AuthorizationManifest,
        detached: AuthManifestSignatures,
    ) -> (s: Self)
        ensures
            s@ == (SessionView {
                steps: steps_view(steps@),
                pos: 0,
                digest,
                manifest,
                detached,
                error: None,
            }),
    {
        SigningSession { steps, pos: 0, digest, manifest, detached, error: None }
    }

    /// The manifest as signed so far.
    pub fn manifest(&self) -> (r: AuthorizationManifest)
        ensures
            r == self@.manifest,
    {
        self.manifest
    }

    /// The detached signatures as produced so far.
    pub fn signatures(&self) -> (r: AuthManifestSignatures)
        ensures
            r == self@.detached,
    {
        self.detached
    }

    /// What the session wants next.
    pub fn next(&self) -> (r: NextStep)
        ensures
            spec_next_is(self@, r),
    {
        if let Some(e) = self.error {
            return NextStep::Failed(e);
        }
        if self.pos >= self.steps.len() {
            return NextStep::Done;
        }
        match &self.steps[self.pos] {
            PlanStep::Digest(data) => NextStep::Request(Request::Sha384Digest { data: data.clone() }),
            PlanStep::EccSign { priv_key, pub_key, .. } => NextStep::Request(
                Request::Ecdsa384Sign { digest: self.digest, priv_key: *priv_key, pub_key: *pub_key },
            ),
            PlanStep::LmsSign { priv_key, .. } => NextStep::Request(
                Request::LmsSign { digest: self.digest, priv_key: *priv_key },
            ),
            PlanStep::HelperSign { helper_cmd, by_file, is_ecdsa384, .. } => NextStep::Request(
                Request::SignWithHelper {
                    digest: self.digest,
                    helper_cmd: helper_cmd.clone(),
                    by_file: *by_file,
                    is_ecdsa384: *is_ecdsa384,
                },
            ),
            PlanStep::Fail(e) => NextStep::Failed(*e),
        }
    }

    fn step_kind(&self, pos: usize) -> (k: StepKind)
        requires
            pos < self.steps@.len(),
        ensures
            match self@.steps[pos as int] {
                StepView::Digest(_) => k is Digest,
                StepView::EccSign { slot, .. } => k == StepKind::Ecc(slot),
                StepView::LmsSign { slot, .. } => k == StepKind::Lms(slot),
                StepView::HelperSign { is_ecdsa384, slot, .. } => k == StepKind::Helper(is_ecdsa384, slot),
                StepView::Fail(e) => k == StepKind::Fail(e),
            },
    {
        match &self.steps[pos] {
            PlanStep::Digest(_) => StepKind::Digest,
            PlanStep::EccSign { slot, .. } => StepKind::Ecc(*slot),
            PlanStep::LmsSign { slot, .. } => StepKind::Lms(*slot),
            PlanStep::HelperSign { is_ecdsa384, slot, .. } => StepKind::Helper(*is_ecdsa384, *slot),
            PlanStep::Fail(e) => StepKind::Fail(*e),
        }
    }

    fn set_ecc(&mut self, slot: SigSlot, sig: ImageEccSignature)
        ensures
            final(self)@ == (SessionView { pos: old(self)@.pos, ..file_ecc(old(self)@, slot, sig) }),
    {
        match slot {
            SigSlot::VendorPubKeys => self.manifest.preamble.vendor_pub_keys_signatures.ecc_sig = sig,
            SigSlot::OwnerPubKeys => self.manifest.preamble.owner_pub_keys_signatures.ecc_sig = sig,
            SigSlot::VendorImageMetadata => self.manifest.preamble.vendor_image_metdata_signatures.ecc_sig = sig,
            SigSlot::OwnerImageMetadata => self.manifest.preamble.owner_image_metdata_signatures.ecc_sig = sig,
            SigSlot::Detached => self.detached.ecc_sig = sig,
        }
    }

    fn set_lms(&mut self, slot: SigSlot, sig: ImageLmsSignature)
        ensures
            final(self)@ == (SessionView { pos: old(self)@.pos, ..file_lms(old(self)@, slot, sig) }),
    {
        match slot {
            SigSlot::VendorPubKeys => self.manifest.preamble.vendor_pub_keys_signatures.lms_sig = sig,
            SigSlot::OwnerPubKeys => self.manifest.preamble.owner_pub_keys_signatures.lms_sig = sig,
            SigSlot::VendorImageMetadata => self.manifest.preamble.vendor_image_metdata_signatures.lms_sig = sig,
            SigSlot::OwnerImageMetadata => self.manifest.preamble.owner_image_metdata_signatures.lms_sig = sig,
            SigSlot::Detached => self.detached.lms_sig = sig,
        }
    }

    /// Hands the session the caller's answer to its current request.
    pub fn answer(&mut self, reply: Reply)
        ensures
            final(self)@ == spec_answer(old(self)@, reply),
    {
        if self.error.is_some() {
            return;
        }
        if self.pos >= self.steps.len() {
            self.error = Some(AuthManifestError::UnexpectedReply);
            return;
        }
        let pos = self.pos;
        match (self.step_kind(pos), reply) {
            (StepKind::Digest, Reply::Digest(d)) => {
                self.digest = d;
                self.pos = pos + 1;
            },
            (StepKind::Ecc(slot), Reply::EccSignature(sig)) => {
                self.set_ecc(slot, sig);
                self.pos = pos + 1;
            },
            (StepKind::Lms(slot), Reply::LmsSignature(sig)) => {
                self.set_lms(slot, sig);
                self.pos = pos + 1;
            },
            (StepKind::Helper(is_ecdsa384, slot), Reply::Helper(pair)) => {
                if is_ecdsa384 {
                    match pair.ecdsa {
                        Some(sig) => {
                            self.set_ecc(slot, sig);
                            self.pos = pos + 1;
                        },
                        None => self.error = Some(AuthManifestError::ExpectedEccSignature),
                    }
                } else {
                    match pair.lms {
                        Some(sig) => {
                            self.set_lms(slot, sig);
                            self.pos = pos + 1;
                        },
                        None => self.error = Some(AuthManifestError::ExpectedLmsSignature),
                    }
                }
            },
            (StepKind::Fail(e), _) => self.error = Some(e),
            _ => self.error = Some(AuthManifestError::UnexpectedReply),
        }
    }
}

/// Every answer either moves the plan on by exactly one step or stops the
/// session with an error; a stopped session stays as it is. So a caller that
/// answers each request in turn reaches `Done` or `Failed` after at most as
/// many answers as the plan has steps.
pub proof fn lemma_answer_progress(v: SessionView, reply: Reply)
    ensures
        v.error is Some ==> spec_answer(v, reply) == v,
        v.error is None ==> {
            ||| spec_answer(v, reply).error is Some && spec_answer(v, reply).pos == v.pos
            ||| spec_answer(v, reply).error is None && spec_answer(v, reply).pos == v.pos + 1
        },
        spec_answer(v, reply).steps == v.steps,
{
}

/// Answering never changes what a signature covers: the vendor-signed part
/// of the preamble, the owner public keys and the image metadata collection
/// keep their encodings; only signatures and the current digest change.
pub proof fn lemma_answer_keeps_signed_data(v: SessionView, reply: Reply)
    ensures
        vendor_signed_bytes(spec_answer(v, reply).manifest.preamble) == vendor_signed_bytes(v.manifest.preamble),
        pub_keys_bytes(spec_answer(v, reply).manifest.preamble.owner_pub_keys)
            == pub_keys_bytes(v.manifest.preamble.owner_pub_keys),
        collection_bytes(spec_answer(v, reply).manifest.image_metadata_col)
            == collection_bytes(v.manifest.image_metadata_col),
        spec_answer(v, reply).manifest.preamble.marker == v.manifest.preamble.marker,
        spec_answer(v, reply).manifest.preamble.size == v.manifest.preamble.size,
{
}

/// A signature answered for a signing step lands in the slot that step
/// names: answering an ECC step with an ECC signature (or a helper step with
/// a pair holding the kind asked for) sets that slot's ECC signature, an LMS
/// step its LMS signature; the other half of the slot and every other slot
/// keep their signatures, and the plan moves on by one step.
pub proof fn lemma_answer_files_signature(v: SessionView, reply: Reply)
    requires
        v.error is None,
        0 <= v.pos < v.steps.len(),
    ensures
        v.steps[v.pos] matches StepView::EccSign { slot, .. } ==> (reply matches Reply::EccSignature(sig) ==> {
            &&& signatures_at(spec_answer(v, reply), slot).ecc_sig == sig
            &&& signatures_at(spec_answer(v, reply), slot).lms_sig == signatures_at(v, slot).lms_sig
            &&& forall|t: SigSlot| t != slot ==> #[trigger] signatures_at(spec_answer(v, reply), t) == signatures_at(v, t)
            &&& spec_answer(v, reply).pos == v.pos + 1
            &&& spec_answer(v, reply).error is None
        }),
        v.steps[v.pos] matches StepView::LmsSign { slot, .. } ==> (reply matches Reply::LmsSignature(sig) ==> {
            &&& signatures_at(spec_answer(v, reply), slot).lms_sig == sig
            &&& signatures_at(spec_answer(v, reply), slot).ecc_sig == signatures_at(v, slot).ecc_sig
            &&& forall|t: SigSlot| t != slot ==> #[trigger] signatures_at(spec_answer(v, reply), t) == signatures_at(v, t)
            &&& spec_answer(v, reply).pos == v.pos + 1
            &&& spec_answer(v, reply).error is None
        }),
        v.steps[v.pos] matches StepView::HelperSign { is_ecdsa384, slot, .. } ==> (reply matches Reply::Helper(pair) ==> {
            &&& (is_ecdsa384 && pair.ecdsa is Some) ==> {
                &&& signatures_at(spec_answer(v, reply), slot).ecc_sig == pair.ecdsa->0
                &&& signatures_at(spec_answer(v, reply), slot).lms_sig == signatures_at(v, slot).lms_sig
                &&& forall|t: SigSlot| t != slot ==> #[trigger] signatures_at(spec_answer(v, reply), t) == signatures_at(v, t)
                &&& spec_answer(v, reply).pos == v.pos + 1
            }
            &&& (!is_ecdsa384 && pair.lms is Some) ==> {
                &&& signatures_at(spec_answer(v, reply), slot).lms_sig == pair.lms->0
                &&& signatures_at(spec_answer(v, reply), slot).ecc_sig == signatures_at(v, slot).ecc_sig
                &&& forall|t: SigSlot| t != slot ==> #[trigger] signatures_at(spec_answer(v, reply), t) == signatures_at(v, t)
                &&& spec_answer(v, reply).pos == v.pos + 1
            }
        }),
{
}

/// The session after answering each of `replies` in turn.
pub open spec fn spec_run(v: SessionView, replies: Seq<Reply>) -> SessionView
    decreases replies.len(),
{
    if replies.len() == 0 {
        v
    } else {
        spec_run(spec_answer(v, replies[0]), replies.drop_first())
    }
}

/// Whether a step files a signature into `slot`.
pub open spec fn step_targets(step: StepView, slot: SigSlot) -> bool {
    match step {
        StepView::EccSign { slot: t, .. } => t == slot,
        StepView::LmsSign { slot: t, .. } => t == slot,
        StepView::HelperSign { slot: t, .. } => t == slot,
        _ => false,
    }
}

/// However the caller answers, the plan stays the same and what any
/// signature covers keeps its encoding.
pub proof fn lemma_run_keeps_signed_data(v: SessionView, replies: Seq<Reply>)
    ensures
        spec_run(v, replies).steps == v.steps,
        vendor_signed_bytes(spec_run(v, replies).manifest.preamble) == vendor_signed_bytes(v.manifest.preamble),
        pub_keys_bytes(spec_run(v, replies).manifest.preamble.owner_pub_keys)
            == pub_keys_bytes(v.manifest.preamble.owner_pub_keys),
        collection_bytes(spec_run(v, replies).manifest.image_metadata_col)
            == collection_bytes(v.manifest.image_metadata_col),
    decreases replies.len(),
{
    if replies.len() > 0 {
        lemma_answer_keeps_signed_data(v, replies[0]);
        lemma_answer_progress(v, replies[0]);
        lemma_run_keeps_signed_data(spec_answer(v, replies[0]), replies.drop_first());
    }
}

/// A slot that no step of the plan names keeps its signatures, however the
/// caller answers.
pub proof fn lemma_run_keeps_untargeted_slot(v: SessionView, replies: Seq<Reply>, slot: SigSlot)
    requires
        forall|i: int| 0 <= i < v.steps.len() ==> !step_targets(#[trigger] v.steps[i], slot),
    ensures
        signatures_at(spec_run(v, replies), slot) == signatures_at(v, slot),
    decreases replies.len(),
{
    if replies.len() > 0 {
        let w = spec_answer(v, replies[0]);
        lemma_answer_progress(v, replies[0]);
        if v.error is None && 0 <= v.pos < v.steps.len() {
            assert(!step_targets(v.steps[v.pos], slot));
        }
        assert(signatures_at(w, slot) == signatures_at(v, slot));
        lemma_run_keeps_untargeted_slot(w, replies.drop_first(), slot);
    }
}

} // verus!
