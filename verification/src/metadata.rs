//! The VP9 codec feature metadata carried inside the `CodecPrivate`
//! field of containers: a sequence of one-byte (id, value) pairs.

use vstd::prelude::*;

use crate::error::ParserError;
use crate::types::ColorDepth;
use crate::types::Level;
use crate::types::MetadataSubsampling;
use crate::types::Profile;
use crate::types::spec_color_depth_from;
use crate::types::spec_level_from;
use crate::types::spec_metadata_subsampling_from;
use crate::types::spec_profile_from;

verus! {

/// The value of the last (id, value) pair in `d` carrying feature `id`,
/// if any.  Pairs occupy consecutive even offsets; a trailing lone byte
/// belongs to no pair.
pub open spec fn feature_value(d: Seq<u8>, id: u8) -> Option<u8>
    decreases d.len(),
{
    if d.len() < 2 {
        None
    } else {
        let k = 2 * (d.len() / 2 - 1);
        if d[k as int] == id {
            Some(d[k + 1])
        } else {
            feature_value(d.take(k as int), id)
        }
    }
}

/// A trailing lone byte does not change any feature value.
proof fn lemma_feature_value_even_prefix(d: Seq<u8>, id: u8)
    ensures
        feature_value(d.take(2 * (d.len() / 2) as int), id) == feature_value(d, id),
{
    let m = d.len() / 2;
    let t = d.take(2 * m as int);
    if d.len() < 2 {
        assert(t.len() < 2);
    } else if d.len() % 2 == 0 {
        assert(t =~= d);
    } else {
        let k = 2 * (m - 1);
        assert(t.len() == 2 * m);
        assert(t[k as int] == d[k as int]);
        assert(t[k + 1] == d[k + 1]);
        assert(t.take(k as int) =~= d.take(k as int));
    }
}

/// Appending one full pair keeps earlier pairs and lets the new pair win
/// for its own id.
proof fn lemma_feature_value_step(d: Seq<u8>, j: int, id: u8)
    requires
        0 <= 2 * j,
        2 * j + 2 <= d.len(),
    ensures
        feature_value(d.take(2 * j + 2), id) == if d[2 * j] == id {
            Some(d[2 * j + 1])
        } else {
            feature_value(d.take(2 * j), id)
        },
{
    let t = d.take(2 * j + 2);
    assert(t.len() == 2 * j + 2);
    assert(t.len() / 2 - 1 == j);
    assert(t[2 * j] == d[2 * j]);
    assert(t[2 * j + 1] == d[2 * j + 1]);
    assert(t.take(2 * j) =~= d.take(2 * j));
}

/// VP9 codec feature metadata saved inside the `CodecPrivate` field of
/// containers.
#[derive(Clone, Copy, Debug)]
pub struct Metadata {
    /// The advertised profile.
    pub profile: Profile,
    /// The advertised level.
    pub level: Level,
    /// The advertised color depth.
    pub color_depth: ColorDepth,
    /// The advertised chroma subsampling.
    pub chroma_subsampling: MetadataSubsampling,
}

impl Metadata {
    /// Decodes the `CodecPrivate` bytes: one-byte feature ids 1 (profile),
    /// 2 (level), 3 (bit depth) and 4 (chroma subsampling), each followed
    /// by a one-byte value.  All four ids are required; when one is
    /// repeated the last pair wins.
    pub fn new(data: &[u8]) -> (r: Result<Self, ParserError>)
        ensures
            match r {
                Ok(m) => {
                    &&& feature_value(data@, 1) is Some
                    &&& feature_value(data@, 2) is Some
                    &&& feature_value(data@, 3) is Some
                    &&& feature_value(data@, 4) is Some
                    &&& m.profile == spec_profile_from(feature_value(data@, 1)->0)
                    &&& m.level == spec_level_from(feature_value(data@, 2)->0)
                    &&& m.color_depth == spec_color_depth_from(feature_value(data@, 3)->0)
                    &&& m.chroma_subsampling == spec_metadata_subsampling_from(
                        feature_value(data@, 4)->0,
                    )
                },
                Err(e) => {
                    &&& e == ParserError::InvalidMetadata
                    &&& {
                        ||| feature_value(data@, 1) is None
                        ||| feature_value(data@, 2) is None
                        ||| feature_value(data@, 3) is None
                        ||| feature_value(data@, 4) is None
                    }
                },
            },
    {
        let mut profile: Option<u8> = None;
        let mut level: Option<u8> = None;
        let mut color_depth: Option<u8> = None;
        let mut chroma_subsampling: Option<u8> = None;
        let mut pos: usize = 0;
        while pos + 1 < data.len()
            invariant
                pos % 2 == 0,
                pos <= data@.len(),
                profile == feature_value(data@.take(pos as int), 1),
                level == feature_value(data@.take(pos as int), 2),
                color_depth == feature_value(data@.take(pos as int), 3),
                chroma_subsampling == feature_value(data@.take(pos as int), 4),
            decreases data@.len() - pos,
        {
            let id = data[pos];
            let value = data[pos + 1];
            proof {
                lemma_feature_value_step(data@, pos as int / 2, 1);
                lemma_feature_value_step(data@, pos as int / 2, 2);
                lemma_feature_value_step(data@, pos as int / 2, 3);
                lemma_feature_value_step(data@, pos as int / 2, 4);
            }
            match id {
                1 => {
                    profile = Some(value);
                },
                2 => {
                    level = Some(value);
                },
                3 => {
                    color_depth = Some(value);
                },
                4 => {
                    chroma_subsampling = Some(value);
                },
                _ => {},
            }
            pos = pos + 2;
        }
        proof {
            lemma_feature_value_even_prefix(data@, 1);
            lemma_feature_value_even_prefix(data@, 2);
            lemma_feature_value_even_prefix(data@, 3);
            lemma_feature_value_even_prefix(data@, 4);
            assert(data@.take(pos as int) =~= data@.take(2 * (data@.len() / 2) as int));
        }
        let profile = match profile {
            Some(v) => v,
            None => {
                return Err(ParserError::InvalidMetadata);
            },
        };
        let level = match level {
            Some(v) => v,
            None => {
                return Err(ParserError::InvalidMetadata);
            },
        };
        let color_depth = match color_depth {
            Some(v) => v,
            None => {
                return Err(ParserError::InvalidMetadata);
            },
        };
        let chroma_subsampling = match chroma_subsampling {
            Some(v) => v,
            None => {
                return Err(ParserError::InvalidMetadata);
            },
        };
        Ok(Self {
            profile: Profile::from_u8(profile),
            level: Level::from_u8(level),
            color_depth: ColorDepth::from_u8(color_depth),
            chroma_subsampling: MetadataSubsampling::from_u8(chroma_subsampling),
        })
    }

    /// The profile of the video.
    pub fn profile(&self) -> (r: Profile)
        ensures
            r == self.profile,
    {
        self.profile
    }

    /// The level of the video.
    pub fn level(&self) -> (r: Level)
        ensures
            r == self.level,
    {
        self.level
    }

    /// The color depth of the video.
    pub fn color_depth(&self) -> (r: ColorDepth)
        ensures
            r == self.color_depth,
    {
        self.color_depth
    }

    /// The chroma subsampling of the video.
    pub fn chroma_subsampling(&self) -> (r: MetadataSubsampling)
        ensures
            r == self.chroma_subsampling,
    {
        self.chroma_subsampling
    }
}

} // verus!
