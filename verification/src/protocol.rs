//! The bodies of requests, each member told apart as absent, null or set.

use crate::ieee;
use crate::ieee::{Real32, Real64};
use crate::json::JsonObject;
use crate::text_map::TextMap;
use std::sync::Arc;
use vstd::prelude::*;

verus! {

/// A member of a partial update.
#[derive(Debug, PartialEq, Eq)]
pub enum PatchField<T> {
    Omitted,
    Null,
    Value(T),
}

impl<T> PatchField<T> {
    pub fn is_omitted(&self) -> (r: bool)
        ensures
            r == (*self is Omitted),
    {
        match self {
            PatchField::Omitted => true,
            _ => false,
        }
    }

    pub fn is_null(&self) -> (r: bool)
        ensures
            r == (*self is Null),
    {
        match self {
            PatchField::Null => true,
            _ => false,
        }
    }

    pub fn is_value(&self) -> (r: bool)
        ensures
            r == (*self is Value),
    {
        match self {
            PatchField::Value(_) => true,
            _ => false,
        }
    }
}

impl<T> Default for PatchField<T> {
    fn default() -> (r: PatchField<T>)
        ensures
            r is Omitted,
    {
        PatchField::Omitted
    }
}

impl<T: Copy> Clone for PatchField<T> {
    fn clone(&self) -> (r: PatchField<T>)
        ensures
            r == *self,
    {
        match self {
            PatchField::Omitted => PatchField::Omitted,
            PatchField::Null => PatchField::Null,
            PatchField::Value(value) => PatchField::Value(*value),
        }
    }
}

impl<T: Copy> Copy for PatchField<T> {

}

/// The value that is set.
pub open spec fn set_value<T>(field: PatchField<T>) -> Option<T> {
    match field {
        PatchField::Value(value) => Some(value),
        _ => None,
    }
}

pub fn value<T: Copy>(field: &PatchField<T>) -> (r: Option<T>)
    ensures
        r == set_value(*field),
{
    match field {
        PatchField::Value(value) => Some(*value),
        _ => None,
    }
}

/// The field as it stays where a null counts as absent.
pub open spec fn only_values<T>(field: PatchField<T>) -> PatchField<T> {
    match field {
        PatchField::Value(value) => PatchField::Value(value),
        _ => PatchField::Omitted,
    }
}

pub fn values_only<T: Copy>(field: &PatchField<T>) -> (r: PatchField<T>)
    ensures
        r == only_values(*field),
{
    match field {
        PatchField::Value(value) => PatchField::Value(*value),
        _ => PatchField::Omitted,
    }
}

/// What remains of a field is a value or nothing, and taking the values again
/// changes nothing.
pub proof fn only_values_settles<T>(field: PatchField<T>)
    ensures
        only_values(field) !is Null,
        only_values(only_values(field)) == only_values(field),
        set_value(only_values(field)) == set_value(field),
{
}

/// The track of a player update.
#[derive(Debug, PartialEq, Eq)]
pub struct PlayerUpdateTrack {
    pub encoded: PatchField<String>,
    pub identifier: PatchField<String>,
    pub user_data: PatchField<Arc<JsonObject>>,
}

impl Default for PlayerUpdateTrack {
    fn default() -> (r: PlayerUpdateTrack)
        ensures
            r == (PlayerUpdateTrack {
                encoded: PatchField::Omitted,
                identifier: PatchField::Omitted,
                user_data: PatchField::Omitted,
            }),
    {
        PlayerUpdateTrack {
            encoded: PatchField::Omitted,
            identifier: PatchField::Omitted,
            user_data: PatchField::Omitted,
        }
    }
}

/// The state of a voice connection as its client knows it.
#[derive(Debug, PartialEq, Eq)]
pub struct VoiceState {
    pub token: String,
    pub endpoint: String,
    pub session_id: String,
    pub channel_id: Option<String>,
}

impl Clone for VoiceState {
    fn clone(&self) -> (r: VoiceState)
        ensures
            r == *self,
    {
        VoiceState {
            token: self.token.clone(),
            endpoint: self.endpoint.clone(),
            session_id: self.session_id.clone(),
            channel_id: match &self.channel_id {
                Some(channel) => Some(channel.clone()),
                None => None,
            },
        }
    }
}

/// The gain of one band.
#[derive(Clone, Copy, Debug, PartialEq, Eq, Structural)]
pub struct EqualizerBand {
    pub band: i32,
    pub gain: Real32,
}

#[derive(Clone, Copy, Debug, PartialEq, Eq, Structural)]
pub struct Karaoke {
    pub level: Real32,
    pub mono_level: Real32,
    pub filter_band: Real32,
    pub filter_width: Real32,
}

impl Default for Karaoke {
    fn default() -> (r: Karaoke)
        ensures
            r == (Karaoke { level: Real32 { bits: ieee::ONE32 }, mono_level: Real32 { bits: ieee::ONE32 }, filter_band: Real32 { bits: ieee::KARAOKE_BAND32 }, filter_width: Real32 { bits: ieee::HUNDRED32 } }),
    {
        Karaoke { level: Real32 { bits: ieee::ONE32 }, mono_level: Real32 { bits: ieee::ONE32 }, filter_band: Real32 { bits: ieee::KARAOKE_BAND32 }, filter_width: Real32 { bits: ieee::HUNDRED32 } }
    }
}

#[derive(Clone, Copy, Debug, PartialEq, Eq, Structural)]
pub struct Timescale {
    pub speed: Real64,
    pub pitch: Real64,
    pub rate: Real64,
}

impl Default for Timescale {
    fn default() -> (r: Timescale)
        ensures
            r == (Timescale { speed: Real64 { bits: ieee::ONE64 }, pitch: Real64 { bits: ieee::ONE64 }, rate: Real64 { bits: ieee::ONE64 } }),
    {
        Timescale { speed: Real64 { bits: ieee::ONE64 }, pitch: Real64 { bits: ieee::ONE64 }, rate: Real64 { bits: ieee::ONE64 } }
    }
}

#[derive(Clone, Copy, Debug, PartialEq, Eq, Structural)]
pub struct Tremolo {
    pub frequency: Real32,
    pub depth: Real32,
}

impl Default for Tremolo {
    fn default() -> (r: Tremolo)
        ensures
            r == (Tremolo { frequency: Real32 { bits: ieee::TWO32 }, depth: Real32 { bits: ieee::HALF32 } }),
    {
        Tremolo { frequency: Real32 { bits: ieee::TWO32 }, depth: Real32 { bits: ieee::HALF32 } }
    }
}

pub type Vibrato = Tremolo;

#[derive(Clone, Copy, Debug, PartialEq, Eq, Structural)]
pub struct Rotation {
    pub rotation_hz: Real64,
}

impl Default for Rotation {
    fn default() -> (r: Rotation)
        ensures
            r == (Rotation { rotation_hz: Real64 { bits: ieee::ZERO64 } }),
    {
        Rotation { rotation_hz: Real64 { bits: ieee::ZERO64 } }
    }
}

#[derive(Clone, Copy, Debug, PartialEq, Eq, Structural)]
pub struct Distortion {
    pub sin_offset: Real32,
    pub sin_scale: Real32,
    pub cos_offset: Real32,
    pub cos_scale: Real32,
    pub tan_offset: Real32,
    pub tan_scale: Real32,
    pub offset: Real32,
    pub scale: Real32,
}

impl Default for Distortion {
    fn default() -> (r: Distortion)
        ensures
            r == (Distortion { sin_offset: Real32 { bits: ieee::ZERO32 }, sin_scale: Real32 { bits: ieee::ONE32 }, cos_offset: Real32 { bits: ieee::ZERO32 }, cos_scale: Real32 { bits: ieee::ONE32 }, tan_offset: Real32 { bits: ieee::ZERO32 }, tan_scale: Real32 { bits: ieee::ONE32 }, offset: Real32 { bits: ieee::ZERO32 }, scale: Real32 { bits: ieee::ONE32 } }),
    {
        Distortion { sin_offset: Real32 { bits: ieee::ZERO32 }, sin_scale: Real32 { bits: ieee::ONE32 }, cos_offset: Real32 { bits: ieee::ZERO32 }, cos_scale: Real32 { bits: ieee::ONE32 }, tan_offset: Real32 { bits: ieee::ZERO32 }, tan_scale: Real32 { bits: ieee::ONE32 }, offset: Real32 { bits: ieee::ZERO32 }, scale: Real32 { bits: ieee::ONE32 } }
    }
}

#[derive(Clone, Copy, Debug, PartialEq, Eq, Structural)]
pub struct ChannelMix {
    pub left_to_left: Real32,
    pub left_to_right: Real32,
    pub right_to_left: Real32,
    pub right_to_right: Real32,
}

impl Default for ChannelMix {
    fn default() -> (r: ChannelMix)
        ensures
            r == (ChannelMix { left_to_left: Real32 { bits: ieee::ONE32 }, left_to_right: Real32 { bits: ieee::ZERO32 }, right_to_left: Real32 { bits: ieee::ZERO32 }, right_to_right: Real32 { bits: ieee::ONE32 } }),
    {
        ChannelMix { left_to_left: Real32 { bits: ieee::ONE32 }, left_to_right: Real32 { bits: ieee::ZERO32 }, right_to_left: Real32 { bits: ieee::ZERO32 }, right_to_right: Real32 { bits: ieee::ONE32 } }
    }
}

#[derive(Clone, Copy, Debug, PartialEq, Eq, Structural)]
pub struct LowPass {
    pub smoothing: Real32,
}

impl Default for LowPass {
    fn default() -> (r: LowPass)
        ensures
            r == (LowPass { smoothing: Real32 { bits: ieee::TWENTY32 } }),
    {
        LowPass { smoothing: Real32 { bits: ieee::TWENTY32 } }
    }
}

/// The filters that replace those of a player.
#[derive(Debug, PartialEq, Eq)]
pub struct Filters {
    pub volume: PatchField<Real32>,
    pub equalizer: PatchField<Vec<EqualizerBand>>,
    pub karaoke: PatchField<Karaoke>,
    pub timescale: PatchField<Timescale>,
    pub tremolo: PatchField<Tremolo>,
    pub vibrato: PatchField<Vibrato>,
    pub distortion: PatchField<Distortion>,
    pub rotation: PatchField<Rotation>,
    pub channel_mix: PatchField<ChannelMix>,
    pub low_pass: PatchField<LowPass>,
    pub plugin_filters: Arc<JsonObject>,
}

impl Default for Filters {
    fn default() -> (r: Filters)
        ensures
            r.volume is Omitted && r.equalizer is Omitted && r.karaoke is Omitted && r.timescale is Omitted && r.tremolo is Omitted && r.vibrato is Omitted && r.distortion is Omitted && r.rotation is Omitted && r.channel_mix is Omitted && r.low_pass is Omitted,
            r.plugin_filters.entries@.len() == 0,
    {
        Filters { volume: PatchField::Omitted, equalizer: PatchField::Omitted, karaoke: PatchField::Omitted, timescale: PatchField::Omitted, tremolo: PatchField::Omitted, vibrato: PatchField::Omitted, distortion: PatchField::Omitted, rotation: PatchField::Omitted, channel_mix: PatchField::Omitted, low_pass: PatchField::Omitted, plugin_filters: Arc::new(TextMap::new()) }
    }
}

/// A partial update of a player.
#[derive(Debug, PartialEq, Eq)]
pub struct PlayerUpdate {
    pub encoded_track: PatchField<String>,
    pub identifier: PatchField<String>,
    pub track: PatchField<PlayerUpdateTrack>,
    pub position: PatchField<i64>,
    pub end_time: PatchField<i64>,
    pub volume: PatchField<i32>,
    pub paused: PatchField<bool>,
    pub filters: PatchField<Filters>,
    pub voice: PatchField<VoiceState>,
}

impl Default for PlayerUpdate {
    fn default() -> (r: PlayerUpdate)
        ensures
            r == (PlayerUpdate { encoded_track: PatchField::Omitted, identifier: PatchField::Omitted, track: PatchField::Omitted, position: PatchField::Omitted, end_time: PatchField::Omitted, volume: PatchField::Omitted, paused: PatchField::Omitted, filters: PatchField::Omitted, voice: PatchField::Omitted }),
    {
        PlayerUpdate { encoded_track: PatchField::Omitted, identifier: PatchField::Omitted, track: PatchField::Omitted, position: PatchField::Omitted, end_time: PatchField::Omitted, volume: PatchField::Omitted, paused: PatchField::Omitted, filters: PatchField::Omitted, voice: PatchField::Omitted }
    }
}

/// A partial update of a session.
#[derive(Clone, Copy, Debug, PartialEq, Eq)]
pub struct SessionUpdate {
    pub resuming: PatchField<bool>,
    pub timeout: PatchField<i64>,
}

impl Default for SessionUpdate {
    fn default() -> (r: SessionUpdate)
        ensures
            r == (SessionUpdate {
                resuming: PatchField::Omitted,
                timeout: PatchField::Omitted,
            }),
    {
        SessionUpdate { resuming: PatchField::Omitted, timeout: PatchField::Omitted }
    }
}

} // verus!
