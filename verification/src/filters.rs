//! Which filters an update may ask for, and what a player makes of them.

use crate::config::FilterConfig;
use crate::ieee;
use crate::ieee::{Real32, Real64};
use crate::json;
use crate::json::object_json;
use crate::media::PlayerError;
use crate::protocol;
use crate::protocol::{value, ChannelMix, Distortion, EqualizerBand, Filters, Karaoke, PatchField, Timescale, Tremolo};
use crate::wire;
use crate::wire::{object, put_if};
use vstd::prelude::*;

verus! {

pub const EQUALIZER_BANDS: usize = 15;

/// The name where the filter is asked for and switched off.
pub open spec fn refused(name: &'static str, enabled: bool, asked: bool) -> Seq<&'static str> {
    if !enabled && asked {
        seq![name]
    } else {
        Seq::empty()
    }
}

/// The filters that are asked for and switched off, in a fixed order.
pub open spec fn disabled_names(filters: Filters, enabled: FilterConfig) -> Seq<&'static str> {
    let s = Seq::<&'static str>::empty();
    let s = s + refused("volume", enabled.volume, filters.volume is Value);
    let s = s + refused("equalizer", enabled.equalizer, filters.equalizer is Value);
    let s = s + refused("karaoke", enabled.karaoke, filters.karaoke is Value);
    let s = s + refused("timescale", enabled.timescale, filters.timescale is Value);
    let s = s + refused("tremolo", enabled.tremolo, filters.tremolo is Value);
    let s = s + refused("vibrato", enabled.vibrato, filters.vibrato is Value);
    let s = s + refused("distortion", enabled.distortion, filters.distortion is Value);
    let s = s + refused("rotation", enabled.rotation, filters.rotation is Value);
    let s = s + refused("channelMix", enabled.channel_mix, filters.channel_mix is Value);
    let s = s + refused("lowPass", enabled.low_pass, filters.low_pass is Value);
    s
}

fn note(names: &mut Vec<&'static str>, name: &'static str, enabled: bool, asked: bool)
    ensures
        final(names)@ == old(names)@ + refused(name, enabled, asked),
{
    if !enabled && asked {
        names.push(name);
    }
    assert(names@ =~= old(names)@ + refused(name, enabled, asked));
}

/// The names of the filters that a request holds and the configuration
/// switches off.
pub fn disabled_filter_names(filters: &Filters, enabled: &FilterConfig) -> (r: Vec<&'static str>)
    ensures
        r@ == disabled_names(*filters, *enabled),
{
    let mut names: Vec<&'static str> = Vec::new();
    note(&mut names, "volume", enabled.volume, filters.volume.is_value());
    note(&mut names, "equalizer", enabled.equalizer, filters.equalizer.is_value());
    note(&mut names, "karaoke", enabled.karaoke, filters.karaoke.is_value());
    note(&mut names, "timescale", enabled.timescale, filters.timescale.is_value());
    note(&mut names, "tremolo", enabled.tremolo, filters.tremolo.is_value());
    note(&mut names, "vibrato", enabled.vibrato, filters.vibrato.is_value());
    note(&mut names, "distortion", enabled.distortion, filters.distortion.is_value());
    note(&mut names, "rotation", enabled.rotation, filters.rotation.is_value());
    note(&mut names, "channelMix", enabled.channel_mix, filters.channel_mix.is_value());
    note(&mut names, "lowPass", enabled.low_pass, filters.low_pass.is_value());
    names
}

/// Where everything is switched on nothing is refused.
pub proof fn nothing_is_refused_where_all_is_enabled(filters: Filters, enabled: FilterConfig)
    requires
        enabled.volume,
        enabled.equalizer,
        enabled.karaoke,
        enabled.timescale,
        enabled.tremolo,
        enabled.vibrato,
        enabled.distortion,
        enabled.rotation,
        enabled.channel_mix,
        enabled.low_pass,
    ensures
        disabled_names(filters, enabled).len() == 0,
{
}

/// A filter is refused exactly where it is asked for and switched off: so many
/// names come back.
pub proof fn each_refused_filter_is_named_once(filters: Filters, enabled: FilterConfig)
    ensures
        disabled_names(filters, enabled).len() == 
            refused("volume", enabled.volume, filters.volume is Value).len() + refused("equalizer", enabled.equalizer, filters.equalizer is Value).len() + refused("karaoke", enabled.karaoke, filters.karaoke is Value).len() + refused("timescale", enabled.timescale, filters.timescale is Value).len() + refused("tremolo", enabled.tremolo, filters.tremolo is Value).len() + refused("vibrato", enabled.vibrato, filters.vibrato is Value).len() + refused("distortion", enabled.distortion, filters.distortion is Value).len() + refused("rotation", enabled.rotation, filters.rotation is Value).len() + refused("channelMix", enabled.channel_mix, filters.channel_mix is Value).len() + refused("lowPass", enabled.low_pass, filters.low_pass is Value).len(),
{
}

/// Whether a modulation is out of its range.
pub open spec fn bad_modulation(field: PatchField<Tremolo>) -> bool {
    field matches PatchField::Value(modulation) && (modulation.frequency.at_most(
        Real32 { bits: ieee::ZERO32 },
    ) || !in_range(modulation.depth, ieee::ZERO32, ieee::ONE32))
}

/// Whether a value is between two others, both among them.
pub open spec fn in_range(value: Real32, low: u32, high: u32) -> bool {
    Real32 { bits: low }.at_most(value) && value.at_most(Real32 { bits: high })
}

fn between(value: Real32, low: u32, high: u32) -> (r: bool)
    ensures
        r == in_range(value, low, high),
{
    Real32 { bits: low }.le(value) && value.le(Real32 { bits: high })
}

/// Whether every band exists.
pub open spec fn bands_exist(bands: Seq<EqualizerBand>) -> bool {
    forall|i: int| 0 <= i < bands.len() ==> 0 <= (#[trigger] bands[i]).band < EQUALIZER_BANDS
}

/// The first fault of the filters, in the order in which they are looked at.
/// `ratio_supported` says whether the speed and rate of the timescale combine
/// to a duration that can be played.
pub open spec fn filters_fault(filters: Filters, ratio_supported: bool) -> Option<&'static str> {
    if filters.volume is Null {
        Some("volume filter must not be null")
    } else if filters.equalizer is Null {
        Some("equalizer filter must not be null")
    } else if filters.volume matches PatchField::Value(volume) && !in_range(
        volume,
        ieee::ZERO32,
        ieee::FIVE32,
    ) {
        Some("filter volume must be between 0 and 5")
    } else if filters.equalizer matches PatchField::Value(bands) && !bands_exist(bands@) {
        Some("equalizer band must be between 0 and 14")
    } else if filters.timescale matches PatchField::Value(timescale) && (
    timescale.speed.not_positive() || timescale.pitch.not_positive()
        || timescale.rate.not_positive()) {
        Some("timescale speed, pitch and rate must be greater than 0")
    } else if filters.timescale is Value && !ratio_supported {
        Some("combined timescale speed and rate are outside the supported range")
    } else if bad_modulation(filters.tremolo) || bad_modulation(filters.vibrato) {
        Some("modulation frequency must be positive and depth between 0 and 1")
    } else if filters.vibrato matches PatchField::Value(vibrato) && (Real32 {
        bits: ieee::FOURTEEN32,
    }).less(vibrato.frequency) {
        Some("vibrato frequency must not exceed 14")
    } else {
        None
    }
}

fn modulation_is_bad(field: &PatchField<Tremolo>) -> (r: bool)
    ensures
        r == bad_modulation(*field),
{
    match field {
        PatchField::Value(modulation) => {
            modulation.frequency.le(Real32 { bits: ieee::ZERO32 }) || !between(
                modulation.depth,
                ieee::ZERO32,
                ieee::ONE32,
            )
        },
        _ => false,
    }
}

fn all_bands_exist(bands: &Vec<EqualizerBand>) -> (r: bool)
    ensures
        r == bands_exist(bands@),
{
    let mut i: usize = 0;
    while i < bands.len()
        invariant
            i <= bands@.len(),
            forall|k: int| 0 <= k < i ==> 0 <= (#[trigger] bands@[k]).band < EQUALIZER_BANDS,
        decreases bands@.len() - i,
    {
        if bands[i].band < 0 || bands[i].band >= EQUALIZER_BANDS as i32 {
            assert(!(0 <= bands@[i as int].band < EQUALIZER_BANDS));
            return false;
        }
        i = i + 1;
    }
    true
}

/// A refusal with the message, or none.
pub open spec fn refusal(message: Option<&'static str>) -> Result<(), PlayerError> {
    match message {
        Some(message) => Err(PlayerError::Invalid(message)),
        None => Ok(()),
    }
}

/// Checks the filters.
pub fn validate_filters(filters: &Filters, ratio_supported: bool) -> (r: Result<(), PlayerError>)
    ensures
        r == refusal(filters_fault(*filters, ratio_supported)),
{
    if filters.volume.is_null() {
        return Err(PlayerError::Invalid("volume filter must not be null"));
    }
    if filters.equalizer.is_null() {
        return Err(PlayerError::Invalid("equalizer filter must not be null"));
    }
    if let PatchField::Value(volume) = &filters.volume {
        if !between(*volume, ieee::ZERO32, ieee::FIVE32) {
            return Err(PlayerError::Invalid("filter volume must be between 0 and 5"));
        }
    }
    if let PatchField::Value(bands) = &filters.equalizer {
        if !all_bands_exist(bands) {
            return Err(PlayerError::Invalid("equalizer band must be between 0 and 14"));
        }
    }
    if let PatchField::Value(timescale) = &filters.timescale {
        if timescale.speed.is_not_positive() || timescale.pitch.is_not_positive()
            || timescale.rate.is_not_positive() {
            return Err(
                PlayerError::Invalid("timescale speed, pitch and rate must be greater than 0"),
            );
        }
        if !ratio_supported {
            return Err(
                PlayerError::Invalid(
                    "combined timescale speed and rate are outside the supported range",
                ),
            );
        }
    }
    if modulation_is_bad(&filters.tremolo) || modulation_is_bad(&filters.vibrato) {
        return Err(
            PlayerError::Invalid("modulation frequency must be positive and depth between 0 and 1"),
        );
    }
    if let PatchField::Value(vibrato) = &filters.vibrato {
        if (Real32 { bits: ieee::FOURTEEN32 }).lt(vibrato.frequency) {
            return Err(PlayerError::Invalid("vibrato frequency must not exceed 14"));
        }
    }
    Ok(())
}

/// Whether the parameters of a karaoke filter can be used, for audio whose
/// frequencies go up to a bound.
pub open spec fn karaoke_in_range(config: Karaoke, highest: Real32) -> bool {
    &&& config.level.finite() && config.mono_level.finite()
    &&& config.filter_band.finite() && config.filter_width.finite()
    &&& in_range(config.level, ieee::ZERO32, ieee::ONE32)
    &&& in_range(config.mono_level, ieee::ZERO32, ieee::ONE32)
    &&& in_range(config.filter_band, ieee::ZERO32, highest.bits)
    &&& in_range(config.filter_width, ieee::ZERO32, highest.bits)
}

/// Checks the parameters of a karaoke filter.
pub fn check_karaoke(config: &Karaoke, highest: Real32) -> (r: Result<(), &'static str>)
    ensures
        r == (if karaoke_in_range(*config, highest) {
            Ok(())
        } else {
            Err("invalid karaoke parameters")
        }),
{
    if config.level.is_finite() && config.mono_level.is_finite() && config.filter_band.is_finite()
        && config.filter_width.is_finite() && between(config.level, ieee::ZERO32, ieee::ONE32)
        && between(config.mono_level, ieee::ZERO32, ieee::ONE32) && between(
        config.filter_band,
        ieee::ZERO32,
        highest.bits,
    ) && between(config.filter_width, ieee::ZERO32, highest.bits) {
        Ok(())
    } else {
        Err("invalid karaoke parameters")
    }
}

/// What playback is told of the filters.
#[derive(Clone, Copy, Debug)]
pub struct FilterConfiguration {
    pub player_volume: Option<u16>,
    pub volume: Option<Real32>,
    pub equalizer: Option<[Real32; 15]>,
    pub karaoke: Option<Karaoke>,
    pub timescale: Option<Timescale>,
    pub tremolo: Option<Tremolo>,
    pub vibrato: Option<Tremolo>,
    pub distortion: Option<Distortion>,
    pub rotation_hz: Option<Real64>,
    pub channel_mix: Option<ChannelMix>,
    pub low_pass_smoothing: Option<Real32>,
}

impl Default for FilterConfiguration {
    fn default() -> (r: FilterConfiguration)
        ensures
            r == no_filters(),
    {
        FilterConfiguration {
            player_volume: None,
            volume: None,
            equalizer: None,
            karaoke: None,
            timescale: None,
            tremolo: None,
            vibrato: None,
            distortion: None,
            rotation_hz: None,
            channel_mix: None,
            low_pass_smoothing: None,
        }
    }
}

/// No filter at all.
pub open spec fn no_filters() -> FilterConfiguration {
    FilterConfiguration {
        player_volume: None,
        volume: None,
        equalizer: None,
        karaoke: None,
        timescale: None,
        tremolo: None,
        vibrato: None,
        distortion: None,
        rotation_hz: None,
        channel_mix: None,
        low_pass_smoothing: None,
    }
}

/// The gain of a band: that of the last entry for it, or zero.
pub open spec fn band_gain(bands: Seq<EqualizerBand>, band: int) -> Real32
    decreases bands.len(),
{
    if bands.len() == 0 {
        Real32 { bits: ieee::ZERO32 }
    } else if bands.last().band == band {
        bands.last().gain
    } else {
        band_gain(bands.drop_last(), band)
    }
}

/// The gains of all bands.
fn band_gains(bands: &Vec<EqualizerBand>) -> (r: [Real32; 15])
    requires
        bands_exist(bands@),
    ensures
        forall|band: int|
            0 <= band < EQUALIZER_BANDS ==> #[trigger] r@[band] == band_gain(bands@, band),
{
    let mut gains: [Real32; 15] = [Real32 { bits: ieee::ZERO32 };15];
    let mut i: usize = 0;
    while i < bands.len()
        invariant
            i <= bands@.len(),
            bands_exist(bands@),
            forall|band: int|
                0 <= band < EQUALIZER_BANDS ==> #[trigger] gains@[band] == band_gain(
                    bands@.take(i as int),
                    band,
                ),
        decreases bands@.len() - i,
    {
        let ghost before = gains@;
        assert(0 <= bands@[i as int].band < EQUALIZER_BANDS);
        let at: usize = bands[i].band as usize;
        gains[at] = bands[i].gain;
        proof {
            let longer = bands@.take(i + 1);
            assert(longer.drop_last() =~= bands@.take(i as int));
            assert(longer.last() == bands@[i as int]);
            assert forall|band: int| 0 <= band < EQUALIZER_BANDS implies #[trigger] gains@[band]
                == band_gain(longer, band) by {
                assert(before[band] == band_gain(bands@.take(i as int), band));
            }
        }
        i = i + 1;
    }
    assert(bands@.take(i as int) =~= bands@);
    gains
}

/// What playback is told of a set of filters, its own volume aside.
pub open spec fn is_configured(configuration: FilterConfiguration, filters: Filters) -> bool {
    &&& configuration.player_volume is None
    &&& configuration.volume == protocol::set_value(filters.volume)
    &&& match filters.equalizer {
        PatchField::Value(bands) => configuration.equalizer matches Some(gains) && forall|
            band: int,
        |
            0 <= band < EQUALIZER_BANDS ==> #[trigger] gains@[band] == band_gain(bands@, band),
        _ => configuration.equalizer is None,
    }
    &&& configuration.karaoke == protocol::set_value(filters.karaoke)
    &&& configuration.timescale == protocol::set_value(filters.timescale)
    &&& configuration.tremolo == protocol::set_value(filters.tremolo)
    &&& configuration.vibrato == protocol::set_value(filters.vibrato)
    &&& configuration.distortion == protocol::set_value(filters.distortion)
    &&& configuration.rotation_hz == match filters.rotation {
        PatchField::Value(rotation) => Some(rotation.rotation_hz),
        _ => None,
    }
    &&& configuration.channel_mix == protocol::set_value(filters.channel_mix)
    &&& configuration.low_pass_smoothing == match filters.low_pass {
        PatchField::Value(low_pass) => Some(low_pass.smoothing),
        _ => None,
    }
}

fn configured(filters: &Filters) -> (r: FilterConfiguration)
    requires
        filters.equalizer matches PatchField::Value(bands) ==> bands_exist(bands@),
    ensures
        is_configured(r, *filters),
{
    FilterConfiguration {
        player_volume: None,
        volume: value(&filters.volume),
        equalizer: match &filters.equalizer {
            PatchField::Value(bands) => Some(band_gains(bands)),
            _ => None,
        },
        karaoke: value(&filters.karaoke),
        timescale: value(&filters.timescale),
        tremolo: value(&filters.tremolo),
        vibrato: value(&filters.vibrato),
        distortion: value(&filters.distortion),
        rotation_hz: match &filters.rotation {
            PatchField::Value(rotation) => Some(rotation.rotation_hz),
            _ => None,
        },
        channel_mix: value(&filters.channel_mix),
        low_pass_smoothing: match &filters.low_pass {
            PatchField::Value(low_pass) => Some(low_pass.smoothing),
            _ => None,
        },
    }
}

/// The JSON of each filter that is set.
pub struct FilterTexts {
    pub volume: String,
    pub equalizer: String,
    pub karaoke: String,
    pub timescale: String,
    pub tremolo: String,
    pub vibrato: String,
    pub distortion: String,
    pub rotation: String,
    pub channel_mix: String,
    pub low_pass: String,
}

/// The filters as clients see them: those that are set, and what plugins were
/// told.
pub open spec fn filters_json(filters: Filters, texts: FilterTexts) -> Seq<char> {
    let m = Seq::<char>::empty();
    let m = wire::with_member_if(m, filters.channel_mix is Value, "channelMix"@, texts.channel_mix@);
    let m = wire::with_member_if(m, filters.distortion is Value, "distortion"@, texts.distortion@);
    let m = wire::with_member_if(m, filters.equalizer is Value, "equalizer"@, texts.equalizer@);
    let m = wire::with_member_if(m, filters.karaoke is Value, "karaoke"@, texts.karaoke@);
    let m = wire::with_member_if(m, filters.low_pass is Value, "lowPass"@, texts.low_pass@);
    let m = wire::with_member_if(m, filters.plugin_filters.entries@.len() > 0, "pluginFilters"@, json::object_text(*filters.plugin_filters));
    let m = wire::with_member_if(m, filters.rotation is Value, "rotation"@, texts.rotation@);
    let m = wire::with_member_if(m, filters.timescale is Value, "timescale"@, texts.timescale@);
    let m = wire::with_member_if(m, filters.tremolo is Value, "tremolo"@, texts.tremolo@);
    let m = wire::with_member_if(m, filters.vibrato is Value, "vibrato"@, texts.vibrato@);
    let m = wire::with_member_if(m, filters.volume is Value, "volume"@, texts.volume@);
    wire::braces(m)
}

fn filters_wire(filters: &Filters, texts: &FilterTexts) -> (r: String)
    ensures
        r@ == filters_json(*filters, *texts),
{
    let mut m = String::new();
    put_if(&mut m, filters.channel_mix.is_value(), "channelMix", texts.channel_mix.as_str());
    put_if(&mut m, filters.distortion.is_value(), "distortion", texts.distortion.as_str());
    put_if(&mut m, filters.equalizer.is_value(), "equalizer", texts.equalizer.as_str());
    put_if(&mut m, filters.karaoke.is_value(), "karaoke", texts.karaoke.as_str());
    put_if(&mut m, filters.low_pass.is_value(), "lowPass", texts.low_pass.as_str());
    put_if(&mut m, filters.plugin_filters.entries.len() > 0, "pluginFilters", object_json(&filters.plugin_filters).as_str());
    put_if(&mut m, filters.rotation.is_value(), "rotation", texts.rotation.as_str());
    put_if(&mut m, filters.timescale.is_value(), "timescale", texts.timescale.as_str());
    put_if(&mut m, filters.tremolo.is_value(), "tremolo", texts.tremolo.as_str());
    put_if(&mut m, filters.vibrato.is_value(), "vibrato", texts.vibrato.as_str());
    put_if(&mut m, filters.volume.is_value(), "volume", texts.volume.as_str());
    object(m.as_str())
}

/// The filters as clients see them and as playback is told of them.
pub fn normalize_filters(filters: &Filters, ratio_supported: bool, texts: &FilterTexts) -> (r:
    Result<(String, FilterConfiguration), PlayerError>)
    ensures
        r matches Err(error) ==> refusal(filters_fault(*filters, ratio_supported)) == Err::<
            (),
            PlayerError,
        >(error),
        r matches Ok((wire, configuration)) ==> filters_fault(*filters, ratio_supported) is None
            && wire@ == filters_json(*filters, *texts) && is_configured(configuration, *filters),
{
    match validate_filters(filters, ratio_supported) {
        Ok(()) => Ok((filters_wire(filters, texts), configured(filters))),
        Err(error) => Err(error),
    }
}

/// One filter of a chain.
#[derive(Clone, Copy, Debug)]
pub enum FilterStage {
    Volume(Real32),
    Equalizer([Real32; 15]),
    Karaoke(Karaoke),
    Timescale(Timescale),
    Tremolo(Tremolo),
    Vibrato(Tremolo),
    Distortion(Distortion),
    Rotation(Real64),
    ChannelMix(ChannelMix),
    LowPass(Real32),
    PlayerVolume(u16),
}

/// Whether any gain is not zero.
pub open spec fn has_gain(gains: [Real32; 15]) -> bool {
    exists|i: int| 0 <= i < 15 && (#[trigger] gains@[i]).differs(Real32 { bits: ieee::ZERO32 })
}

/// Whether a timescale changes anything.
pub open spec fn scales(t: Timescale) -> bool {
    t.speed.differs(Real64 { bits: ieee::ONE64 }) || t.pitch.differs(Real64 { bits: ieee::ONE64 }) || t.rate.differs(Real64 { bits: ieee::ONE64 })
}

/// Whether a distortion changes anything.
pub open spec fn distorts(d: Distortion) -> bool {
    d.sin_offset.differs(Real32 { bits: ieee::ZERO32 })
        || d.sin_scale.differs(Real32 { bits: ieee::ONE32 })
        || d.cos_offset.differs(Real32 { bits: ieee::ZERO32 })
        || d.cos_scale.differs(Real32 { bits: ieee::ONE32 })
        || d.tan_offset.differs(Real32 { bits: ieee::ZERO32 })
        || d.tan_scale.differs(Real32 { bits: ieee::ONE32 })
        || d.offset.differs(Real32 { bits: ieee::ZERO32 })
        || d.scale.differs(Real32 { bits: ieee::ONE32 })
}

/// Whether a channel mix changes anything.
pub open spec fn mixes(m: ChannelMix) -> bool {
    m.left_to_left.differs(Real32 { bits: ieee::ONE32 })
        || m.left_to_right.differs(Real32 { bits: ieee::ZERO32 })
        || m.right_to_left.differs(Real32 { bits: ieee::ZERO32 })
        || m.right_to_right.differs(Real32 { bits: ieee::ONE32 })
}

/// A filter where it is wanted.
pub open spec fn stage_if(wanted: bool, stage: FilterStage) -> Seq<FilterStage> {
    if wanted {
        seq![stage]
    } else {
        Seq::empty()
    }
}

/// The filters that change anything, in the order in which they are applied:
/// the volume of the player comes last.
pub open spec fn chain_of(c: FilterConfiguration) -> Seq<FilterStage> {
    let s = match c.volume {
        Some(v) => stage_if(v.differs(Real32 { bits: ieee::ONE32 }), FilterStage::Volume(v)),
        None => Seq::empty(),
    };
    let s = s + match c.equalizer {
        Some(v) => stage_if(has_gain(v), FilterStage::Equalizer(v)),
        None => Seq::empty(),
    };
    let s = s + match c.karaoke {
        Some(v) => stage_if(true, FilterStage::Karaoke(v)),
        None => Seq::empty(),
    };
    let s = s + match c.timescale {
        Some(v) => stage_if(scales(v), FilterStage::Timescale(v)),
        None => Seq::empty(),
    };
    let s = s + match c.tremolo {
        Some(v) => stage_if(v.depth.differs(Real32 { bits: ieee::ZERO32 }), FilterStage::Tremolo(v)),
        None => Seq::empty(),
    };
    let s = s + match c.vibrato {
        Some(v) => stage_if(v.depth.differs(Real32 { bits: ieee::ZERO32 }), FilterStage::Vibrato(v)),
        None => Seq::empty(),
    };
    let s = s + match c.distortion {
        Some(v) => stage_if(distorts(v), FilterStage::Distortion(v)),
        None => Seq::empty(),
    };
    let s = s + match c.rotation_hz {
        Some(v) => stage_if(v.differs(Real64 { bits: ieee::ZERO64 }), FilterStage::Rotation(v)),
        None => Seq::empty(),
    };
    let s = s + match c.channel_mix {
        Some(v) => stage_if(mixes(v), FilterStage::ChannelMix(v)),
        None => Seq::empty(),
    };
    let s = s + match c.low_pass_smoothing {
        Some(v) => stage_if((Real32 { bits: ieee::ONE32 }).less(v), FilterStage::LowPass(v)),
        None => Seq::empty(),
    };
    s + match c.player_volume {
        Some(v) => stage_if(v != 100, FilterStage::PlayerVolume(v)),
        None => Seq::empty(),
    }
}

fn any_gain(gains: &[Real32; 15]) -> (r: bool)
    ensures
        r == has_gain(*gains),
{
    let mut i: usize = 0;
    while i < 15
        invariant
            i <= 15,
            forall|k: int| 0 <= k < i ==> !(#[trigger] gains@[k]).differs(Real32 { bits: ieee::ZERO32 }),
        decreases 15 - i,
    {
        if gains[i].ne(Real32 { bits: ieee::ZERO32 }) {
            assert(gains@[i as int].differs(Real32 { bits: ieee::ZERO32 }));
            return true;
        }
        i = i + 1;
    }
    false
}

fn distorting(d: &Distortion) -> (r: bool)
    ensures
        r == distorts(*d),
{
    d.sin_offset.ne(Real32 { bits: ieee::ZERO32 })
        || d.sin_scale.ne(Real32 { bits: ieee::ONE32 })
        || d.cos_offset.ne(Real32 { bits: ieee::ZERO32 })
        || d.cos_scale.ne(Real32 { bits: ieee::ONE32 })
        || d.tan_offset.ne(Real32 { bits: ieee::ZERO32 })
        || d.tan_scale.ne(Real32 { bits: ieee::ONE32 })
        || d.offset.ne(Real32 { bits: ieee::ZERO32 })
        || d.scale.ne(Real32 { bits: ieee::ONE32 })
}

fn mixing(m: &ChannelMix) -> (r: bool)
    ensures
        r == mixes(*m),
{
    m.left_to_left.ne(Real32 { bits: ieee::ONE32 })
        || m.left_to_right.ne(Real32 { bits: ieee::ZERO32 })
        || m.right_to_left.ne(Real32 { bits: ieee::ZERO32 })
        || m.right_to_right.ne(Real32 { bits: ieee::ONE32 })
}

fn add_stage(chain: &mut Vec<FilterStage>, wanted: bool, stage: FilterStage)
    ensures
        final(chain)@ == old(chain)@ + stage_if(wanted, stage),
{
    if wanted {
        chain.push(stage);
    }
    assert(chain@ =~= old(chain)@ + stage_if(wanted, stage));
}

/// The first half of a chain.
fn first_stages(c: &FilterConfiguration) -> (r: Vec<FilterStage>)
    ensures
        r@ == chain_of(
            FilterConfiguration {
                vibrato: None,
                distortion: None,
                rotation_hz: None,
                channel_mix: None,
                low_pass_smoothing: None,
                player_volume: None,
                ..*c
            },
        ),
{
    let mut chain: Vec<FilterStage> = Vec::new();
    if let Some(v) = c.volume {
        add_stage(&mut chain, v.ne(Real32 { bits: ieee::ONE32 }), FilterStage::Volume(v));
    }
    if let Some(v) = c.equalizer {
        let wanted: bool = any_gain(&v);
        add_stage(&mut chain, wanted, FilterStage::Equalizer(v));
    }
    if let Some(v) = c.karaoke {
        add_stage(&mut chain, true, FilterStage::Karaoke(v));
    }
    if let Some(v) = c.timescale {
        let wanted: bool = v.speed.ne(Real64 { bits: ieee::ONE64 }) || v.pitch.ne(Real64 { bits: ieee::ONE64 }) || v.rate.ne(Real64 { bits: ieee::ONE64 });
        add_stage(&mut chain, wanted, FilterStage::Timescale(v));
    }
    if let Some(v) = c.tremolo {
        add_stage(&mut chain, v.depth.ne(Real32 { bits: ieee::ZERO32 }), FilterStage::Tremolo(v));
    }
    assert(chain@ =~= chain_of(
        FilterConfiguration {
            vibrato: None,
            distortion: None,
            rotation_hz: None,
            channel_mix: None,
            low_pass_smoothing: None,
            player_volume: None,
            ..*c
        },
    ));
    chain
}

/// The filters of a chain.
pub fn filter_chain(c: &FilterConfiguration) -> (r: Vec<FilterStage>)
    ensures
        r@ == chain_of(*c),
{
    let mut chain: Vec<FilterStage> = first_stages(c);
    if let Some(v) = c.vibrato {
        add_stage(&mut chain, v.depth.ne(Real32 { bits: ieee::ZERO32 }), FilterStage::Vibrato(v));
    }
    if let Some(v) = c.distortion {
        let wanted: bool = distorting(&v);
        add_stage(&mut chain, wanted, FilterStage::Distortion(v));
    }
    if let Some(v) = c.rotation_hz {
        add_stage(&mut chain, v.ne(Real64 { bits: ieee::ZERO64 }), FilterStage::Rotation(v));
    }
    if let Some(v) = c.channel_mix {
        let wanted: bool = mixing(&v);
        add_stage(&mut chain, wanted, FilterStage::ChannelMix(v));
    }
    if let Some(v) = c.low_pass_smoothing {
        add_stage(&mut chain, (Real32 { bits: ieee::ONE32 }).lt(v), FilterStage::LowPass(v));
    }
    if let Some(v) = c.player_volume {
        add_stage(&mut chain, v != 100, FilterStage::PlayerVolume(v));
    }
    assert(chain@ =~= chain_of(*c));
    chain
}

/// Without filters and at full volume nothing is applied.
pub proof fn no_filters_apply_nothing(volume: u16)
    requires
        volume == 100,
    ensures
        chain_of(FilterConfiguration { player_volume: Some(volume), ..no_filters() }).len() == 0,
        chain_of(no_filters()).len() == 0,
{
}

/// Whether a timescale only changes the speed, so far that overlapping pieces
/// of the input is enough.
pub open spec fn changes_speed_only(t: Timescale) -> bool {
    &&& !t.pitch.differs(Real64 { bits: ieee::ONE64 })
    &&& !t.rate.differs(Real64 { bits: ieee::ONE64 })
    &&& (Real64 { bits: ieee::QUARTER64 }).at_most(t.speed)
    &&& t.speed.at_most(Real64 { bits: ieee::FOUR64 })
}

pub fn speed_only(t: &Timescale) -> (r: bool)
    ensures
        r == changes_speed_only(*t),
{
    !t.pitch.ne(Real64 { bits: ieee::ONE64 }) && !t.rate.ne(Real64 { bits: ieee::ONE64 }) && (Real64 { bits: ieee::QUARTER64 }).le(t.speed)
        && t.speed.le(Real64 { bits: ieee::FOUR64 })
}

} // verus!
