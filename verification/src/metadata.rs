//! Image metadata entries from their configuration-file form.
use vstd::prelude::*;
use crate::error::AuthManifestError;
use crate::hexcodec::{hex_decode, hex_decoded, is_hex_text};
use crate::image::ECC384_SCALAR_BYTE_SIZE;
use crate::manifest::AuthManifestImageMetadata;

verus! {

/// Bit position of the image source field (two bits).
pub const IMAGE_SOURCE_SHIFT: u32 = 0;
/// Mask of the image source field, in place.
pub const IMAGE_SOURCE_MASK: u32 = 0b11;
/// Bit position of the ignore-authorization-check flag.
pub const IGNORE_AUTH_CHECK_SHIFT: u32 = 2;
/// Mask of the ignore-authorization-check flag, in place.
pub const IGNORE_AUTH_CHECK_MASK: u32 = 0b100;
/// Bit position of the image load stage field (five bits).
pub const IMAGE_LOAD_STAGE_SHIFT: u32 = 3;
/// Mask of the image load stage field, in place.
pub const IMAGE_LOAD_STAGE_MASK: u32 = 0b1111_1000;

/// The flags word of an image metadata entry, built field by field. Setting
/// a field keeps the other bits and keeps only as many low bits of the value
/// as the field has.
#[derive(Clone, Copy, Debug)]
pub struct ImageMetadataFlags(pub u32);

/// The flags word with a field replaced.
pub open spec fn with_field(bits: u32, shift: u32, mask: u32, value: u32) -> u32 {
    (bits & !mask) | ((value << shift) & mask)
}

impl ImageMetadataFlags {
    pub fn set_image_source(&mut self, value: u32)
        ensures
            final(self).0 == with_field(old(self).0, IMAGE_SOURCE_SHIFT, IMAGE_SOURCE_MASK, value),
    {
        self.0 = (self.0 & !IMAGE_SOURCE_MASK) | ((value << IMAGE_SOURCE_SHIFT) & IMAGE_SOURCE_MASK);
    }

    pub fn set_ignore_auth_check(&mut self, value: bool)
        ensures
            final(self).0 == with_field(
                old(self).0,
                IGNORE_AUTH_CHECK_SHIFT,
                IGNORE_AUTH_CHECK_MASK,
                if value { 1 } else { 0 },
            ),
    {
        let v: u32 = if value { 1 } else { 0 };
        self.0 = (self.0 & !IGNORE_AUTH_CHECK_MASK) | ((v << IGNORE_AUTH_CHECK_SHIFT) & IGNORE_AUTH_CHECK_MASK);
    }

    pub fn set_image_load_stage(&mut self, value: u32)
        ensures
            final(self).0 == with_field(old(self).0, IMAGE_LOAD_STAGE_SHIFT, IMAGE_LOAD_STAGE_MASK, value),
    {
        self.0 = (self.0 & !IMAGE_LOAD_STAGE_MASK) | ((value << IMAGE_LOAD_STAGE_SHIFT) & IMAGE_LOAD_STAGE_MASK);
    }
}

/// The flags word of an entry: the low two bits of the source, the
/// ignore-authorization-check flag, and the low five bits of the load stage,
/// each in its own field.
pub open spec fn image_metadata_flags(ignore_auth_check: bool, source: u32, load_stage: u32) -> u32 {
    (source & 0b11) | (if ignore_auth_check { 0b100u32 } else { 0u32 }) | ((load_stage & 0b1_1111) << 3u32)
}

/// One image metadata entry as a configuration file gives it; the digest is
/// hexadecimal text.
#[derive(Debug)]
pub struct ImageMetadataConfigFromFile {
    pub digest: String,
    pub source: u32,
    pub fw_id: u32,
    pub ignore_auth_check: bool,
    pub load_stage: u32,
}

/// The bytes of a configured digest's text.
pub open spec fn digest_text(e: ImageMetadataConfigFromFile) -> Seq<u8> {
    vstd::utf8::encode_utf8(e.digest@)
}

/// What becomes of one entry, given the entries before it: a repeated
/// firmware id and a digest that is not hexadecimal are errors, a digest
/// that does not decode to 48 bytes is not handled (`None`).
pub open spec fn entry_outcome(prior: Seq<ImageMetadataConfigFromFile>, e: ImageMetadataConfigFromFile) -> Option<Result<(), AuthManifestError>> {
    if exists|j: int| 0 <= j < prior.len() && (#[trigger] prior[j]).fw_id == e.fw_id {
        Some(Err(AuthManifestError::DuplicateFirmwareId))
    } else if !is_hex_text(digest_text(e)) {
        Some(Err(AuthManifestError::InvalidHex))
    } else if hex_decoded(digest_text(e)).len() != 48 {
        None
    } else {
        Some(Ok(()))
    }
}

/// What becomes of a list of entries taken in order: the outcome of the
/// first entry that does not succeed, else success.
pub open spec fn entries_outcome(cfg: Seq<ImageMetadataConfigFromFile>) -> Option<Result<(), AuthManifestError>>
    decreases cfg.len(),
{
    if cfg.len() == 0 {
        Some(Ok(()))
    } else {
        match entries_outcome(cfg.drop_last()) {
            Some(Ok(())) => entry_outcome(cfg.drop_last(), cfg.last()),
            other => other,
        }
    }
}

/// The manifest entry that a configured entry stands for.
pub open spec fn entry_matches(m: AuthManifestImageMetadata, e: ImageMetadataConfigFromFile) -> bool {
    &&& m.fw_id == e.fw_id
    &&& m.flags == image_metadata_flags(e.ignore_auth_check, e.source, e.load_stage)
    &&& m.digest@ == hex_decoded(digest_text(e))
}

proof fn lemma_flags(ignore: bool, source: u32, load_stage: u32)
    ensures
        with_field(
            with_field(
                with_field(0, IGNORE_AUTH_CHECK_SHIFT, IGNORE_AUTH_CHECK_MASK, if ignore { 1 } else { 0 }),
                IMAGE_SOURCE_SHIFT,
                IMAGE_SOURCE_MASK,
                source,
            ),
            IMAGE_LOAD_STAGE_SHIFT,
            IMAGE_LOAD_STAGE_MASK,
            load_stage,
        ) == image_metadata_flags(ignore, source, load_stage),
{
    let i: u32 = if ignore { 1 } else { 0 };
    let ib: u32 = if ignore { 0b100u32 } else { 0u32 };
    assert(i == 0 || i == 1);
    assert((i == 0 ==> ib == 0) && (i == 1 ==> ib == 4));
    assert((i == 0 || i == 1) && (i == 0 ==> ib == 0) && (i == 1 ==> ib == 4) ==>
        ((((0u32 & !4u32) | ((i << 2u32) & 4u32)) & !3u32) | ((source << 0u32) & 3u32)) & !0b1111_1000u32
            | ((load_stage << 3u32) & 0b1111_1000u32)
        == (source & 0b11) | ib | ((load_stage & 0b1_1111) << 3u32)) by (bit_vector);
}

/// Turns the configured entries into manifest entries, in order. Refused
/// with `DuplicateFirmwareId` when an entry repeats the firmware id of an
/// earlier one, and with `InvalidHex` when a digest is not hexadecimal text;
/// the first such entry decides. Each digest must decode to 48 bytes.
pub fn image_metadata_config_from_file(config: &Vec<ImageMetadataConfigFromFile>)
    -> (res: Result<Vec<AuthManifestImageMetadata>, AuthManifestError>)
    requires
        entries_outcome(config@) is Some,
    ensures
        match entries_outcome(config@) {
            Some(Ok(())) => res matches Ok(list) && list@.len() == config@.len()
                && forall|i: int| 0 <= i < config@.len() ==> entry_matches(#[trigger] list@[i], config@[i]),
            Some(Err(e)) => res == Err::<Vec<AuthManifestImageMetadata>, AuthManifestError>(e),
            None => false,
        },
{
    let mut image_metadata_list: Vec<AuthManifestImageMetadata> = Vec::new();
    let mut fw_ids: Vec<u32> = Vec::new();
    let len = config.len();
    let mut i: usize = 0;
    while i < len
        invariant
            len == config@.len(),
            0 <= i <= len,
            entries_outcome(config@) is Some,
            entries_outcome(config@.take(i as int)) == Some(Ok::<(), AuthManifestError>(())),
            image_metadata_list@.len() == i,
            fw_ids@.len() == i,
            forall|j: int| 0 <= j < i ==> #[trigger] fw_ids@[j] == config@[j].fw_id,
            forall|j: int| 0 <= j < i ==> entry_matches(#[trigger] image_metadata_list@[j], config@[j]),
        decreases len - i,
    {
        let image = &config[i];
        let ghost prior = config@.take(i as int);
        assert(config@.take(i + 1).drop_last() =~= prior);
        assert(config@.take(i + 1).last() == config@[i as int]);
        proof { lemma_outcome_prefix(config@, i as int + 1); }

        // A firmware id must not repeat.
        let mut k: usize = 0;
        let mut dup = false;
        while k < i
            invariant
                0 <= k <= i,
                i == fw_ids@.len(),
                !dup ==> forall|j: int| 0 <= j < k ==> fw_ids@[j] != image.fw_id,
                dup ==> exists|j: int| 0 <= j < i && fw_ids@[j] == image.fw_id,
            decreases i - k,
        {
            if fw_ids[k] == image.fw_id {
                dup = true;
            }
            k = k + 1;
        }
        if dup {
            proof {
                let j = choose|j: int| 0 <= j < i && fw_ids@[j] == image.fw_id;
                assert(prior[j].fw_id == image.fw_id);
                lemma_outcome_stops(config@, i as int + 1);
            }
            return Err(AuthManifestError::DuplicateFirmwareId);
        }
        assert(!exists|j: int| 0 <= j < prior.len() && (#[trigger] prior[j]).fw_id == image.fw_id) by {
            assert forall|j: int| 0 <= j < prior.len() implies (#[trigger] prior[j]).fw_id != image.fw_id by {
                assert(fw_ids@[j] == config@[j].fw_id);
            }
        }
        fw_ids.push(image.fw_id);

        let digest_vec = match hex_decode(image.digest.as_str().as_bytes()) {
            Ok(v) => v,
            Err(()) => {
                proof { lemma_outcome_stops(config@, i as int + 1); }
                return Err(AuthManifestError::InvalidHex);
            },
        };
        let mut flags = ImageMetadataFlags(0);
        flags.set_ignore_auth_check(image.ignore_auth_check);
        flags.set_image_source(image.source);
        flags.set_image_load_stage(image.load_stage);
        proof { lemma_flags(image.ignore_auth_check, image.source, image.load_stage); }

        proof {
            if digest_vec@.len() != 48 {
                lemma_outcome_stops(config@, i as int + 1);
            }
        }
        let mut digest = [0u8; ECC384_SCALAR_BYTE_SIZE];
        let mut d: usize = 0;
        while d < ECC384_SCALAR_BYTE_SIZE
            invariant
                0 <= d <= 48,
                digest_vec@.len() == 48,
                digest@.len() == 48,
                forall|j: int| 0 <= j < d ==> digest@[j] == digest_vec@[j],
            decreases 48 - d,
        {
            digest[d] = digest_vec[d];
            d = d + 1;
        }
        assert(digest@ =~= digest_vec@);
        image_metadata_list.push(AuthManifestImageMetadata { fw_id: image.fw_id, flags: flags.0, digest });
        i = i + 1;
        assert(entries_outcome(config@.take(i as int)) == Some(Ok::<(), AuthManifestError>(())));
    }
    assert(config@.take(len as int) =~= config@);
    Ok(image_metadata_list)
}

/// Once a prefix of the entries stops (error or unhandled), every longer
/// prefix, and the whole list, stops the same way.
proof fn lemma_outcome_stops(cfg: Seq<ImageMetadataConfigFromFile>, n: int)
    requires
        0 < n <= cfg.len(),
        entries_outcome(cfg.take(n)) != Some(Ok::<(), AuthManifestError>(())),
    ensures
        entries_outcome(cfg) == entries_outcome(cfg.take(n)),
    decreases cfg.len() - n,
{
    if n < cfg.len() {
        assert(cfg.take(n + 1).drop_last() =~= cfg.take(n));
        lemma_outcome_stops(cfg, n + 1);
    } else {
        assert(cfg.take(n) =~= cfg);
    }
}

/// The outcome of a prefix of length `n`, given that the shorter prefix
/// succeeded, is the outcome of its last entry.
proof fn lemma_outcome_prefix(cfg: Seq<ImageMetadataConfigFromFile>, n: int)
    requires
        0 < n <= cfg.len(),
    ensures
        entries_outcome(cfg.take(n - 1)) == Some(Ok::<(), AuthManifestError>(())) ==>
            entries_outcome(cfg.take(n)) == entry_outcome(cfg.take(n - 1), cfg[n - 1]),
{
    assert(cfg.take(n).drop_last() =~= cfg.take(n - 1));
}

/// No two entries of an accepted list share a firmware id.
pub proof fn lemma_accepted_fw_ids_distinct(cfg: Seq<ImageMetadataConfigFromFile>)
    requires
        entries_outcome(cfg) == Some(Ok::<(), AuthManifestError>(())),
    ensures
        forall|i: int, j: int| 0 <= i < j < cfg.len() ==> (#[trigger] cfg[i]).fw_id != (#[trigger] cfg[j]).fw_id,
    decreases cfg.len(),
{
    if cfg.len() > 0 {
        let prior = cfg.drop_last();
        lemma_accepted_fw_ids_distinct(prior);
        assert forall|i: int, j: int| 0 <= i < j < cfg.len() implies (#[trigger] cfg[i]).fw_id != (#[trigger] cfg[j]).fw_id by {
            if j == cfg.len() - 1 {
                assert(prior[i] == cfg[i]);
                if cfg[i].fw_id == cfg[j].fw_id {
                    assert(exists|k: int| 0 <= k < prior.len() && (#[trigger] prior[k]).fw_id == cfg.last().fw_id);
                }
            } else {
                assert(prior[i] == cfg[i] && prior[j] == cfg[j]);
            }
        }
    }
}

} // verus!
