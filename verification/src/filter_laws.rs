//! What filters do, told by the numbers that they are given. A number is told by
//! its bits: one is `0x3F80_0000` or `0x3FF0_0000_0000_0000`, and zero has two
//! encodings.

use crate::config::FilterConfig;
use crate::filters;
use crate::filters::{FilterConfiguration, FilterStage, FilterTexts};
use crate::ieee::{Real32, Real64};
use crate::json;
use crate::protocol::{
    ChannelMix, Distortion, EqualizerBand, Filters, Karaoke, LowPass, PatchField, Rotation,
    Timescale, Tremolo,
};
use crate::wire_laws;
use vstd::prelude::*;

verus! {

pub open spec fn is_one(value: Real32) -> bool {
    value.bits == 0x3F80_0000
}

pub open spec fn is_zero(value: Real32) -> bool {
    value.bits == 0 || value.bits == 0x8000_0000
}

pub open spec fn is_one_long(value: Real64) -> bool {
    value.bits == 0x3FF0_0000_0000_0000
}

pub open spec fn is_zero_long(value: Real64) -> bool {
    value.bits == 0 || value.bits == 0x8000_0000_0000_0000
}

/// Whether a filter belongs to a chain: it was set, and it changes the sound.
pub open spec fn belongs(c: FilterConfiguration, stage: FilterStage) -> bool {
    match stage {
        FilterStage::Volume(v) => c.volume == Some(v) && !is_one(v),
        FilterStage::Equalizer(v) => c.equalizer == Some(v) && exists|i: int|
            0 <= i < 15 && !is_zero(#[trigger] v@[i]),
        FilterStage::Karaoke(v) => c.karaoke == Some(v),
        FilterStage::Timescale(v) => c.timescale == Some(v) && (!is_one_long(v.speed)
            || !is_one_long(v.pitch) || !is_one_long(v.rate)),
        FilterStage::Tremolo(v) => c.tremolo == Some(v) && !is_zero(v.depth),
        FilterStage::Vibrato(v) => c.vibrato == Some(v) && !is_zero(v.depth),
        FilterStage::Distortion(v) => c.distortion == Some(v) && !(is_zero(v.sin_offset) && is_one(
            v.sin_scale,
        ) && is_zero(v.cos_offset) && is_one(v.cos_scale) && is_zero(v.tan_offset) && is_one(
            v.tan_scale,
        ) && is_zero(v.offset) && is_one(v.scale)),
        FilterStage::Rotation(v) => c.rotation_hz == Some(v) && !is_zero_long(v),
        FilterStage::ChannelMix(v) => c.channel_mix == Some(v) && !(is_one(v.left_to_left)
            && is_zero(v.left_to_right) && is_zero(v.right_to_left) && is_one(v.right_to_right)),
        FilterStage::LowPass(v) => c.low_pass_smoothing == Some(v) && 0x3F80_0000 < v.bits
            <= 0x7F80_0000,
        FilterStage::PlayerVolume(v) => c.player_volume == Some(v) && v != 100,
    }
}

/// The place of a filter among the others.
pub open spec fn place(stage: FilterStage) -> int {
    match stage {
        FilterStage::Volume(_) => 0,
        FilterStage::Equalizer(_) => 1,
        FilterStage::Karaoke(_) => 2,
        FilterStage::Timescale(_) => 3,
        FilterStage::Tremolo(_) => 4,
        FilterStage::Vibrato(_) => 5,
        FilterStage::Distortion(_) => 6,
        FilterStage::Rotation(_) => 7,
        FilterStage::ChannelMix(_) => 8,
        FilterStage::LowPass(_) => 9,
        FilterStage::PlayerVolume(_) => 10,
    }
}

/// Whether a part of a chain holds the filters that belong to it below a place,
/// in order.
spec fn built(c: FilterConfiguration, chain: Seq<FilterStage>, below: int) -> bool {
    &&& forall|stage: FilterStage|
        #![trigger chain.contains(stage)]
        chain.contains(stage) <==> belongs(c, stage) && place(stage) < below
    &&& forall|i: int, j: int|
        0 <= i < j < chain.len() ==> place(#[trigger] chain[i]) < place(#[trigger] chain[j])
}

/// One more filter goes behind the others where it belongs.
proof fn lemma_built(
    c: FilterConfiguration,
    chain: Seq<FilterStage>,
    next: Seq<FilterStage>,
    below: int,
)
    requires
        built(c, chain, below),
        forall|stage: FilterStage|
            #![trigger next.contains(stage)]
            next.contains(stage) <==> belongs(c, stage) && place(stage) == below,
        next.len() <= 1,
    ensures
        built(c, chain + next, below + 1),
{
    let all = chain + next;
    assert forall|stage: FilterStage|
        #![trigger all.contains(stage)]
        all.contains(stage) <==> belongs(c, stage) && place(stage) < below + 1 by {
        assert(all.contains(stage) <==> chain.contains(stage) || next.contains(stage)) by {
            if chain.contains(stage) {
                let i = choose|i: int| 0 <= i < chain.len() && chain[i] == stage;
                assert(all[i] == stage);
            }
            if next.contains(stage) {
                let i = choose|i: int| 0 <= i < next.len() && next[i] == stage;
                assert(all[chain.len() + i] == stage);
            }
            if all.contains(stage) {
                let i = choose|i: int| 0 <= i < all.len() && all[i] == stage;
                if i < chain.len() {
                    assert(chain[i] == stage);
                } else {
                    assert(next[i - chain.len()] == stage);
                }
            }
        }
    }
    assert forall|i: int, j: int| 0 <= i < j < all.len() implies place(#[trigger] all[i]) < place(
        #[trigger] all[j],
    ) by {
        assert(chain.contains(chain[i]));
        if j < chain.len() {
            assert(all[j] == chain[j]);
        } else {
            assert(next.contains(next[0]));
        }
    }
}

/// A filter alone, where it is wanted.
proof fn lemma_single(
    c: FilterConfiguration,
    wanted: bool,
    stage: FilterStage,
    below: int,
)
    requires
        place(stage) == below,
        wanted <==> belongs(c, stage),
        forall|other: FilterStage| #[trigger] belongs(c, other) && place(other) == below ==> other == stage,
    ensures
        forall|other: FilterStage|
            #![trigger filters::stage_if(wanted, stage).contains(other)]
            filters::stage_if(wanted, stage).contains(other) <==> belongs(c, other) && place(other)
                == below,
        filters::stage_if(wanted, stage).len() <= 1,
{
    assert forall|other: FilterStage|
        #![trigger filters::stage_if(wanted, stage).contains(other)]
        filters::stage_if(wanted, stage).contains(other) <==> belongs(c, other) && place(other)
            == below by {
        if wanted {
            assert(filters::stage_if(wanted, stage)[0] == stage);
        }
    }
}

proof fn lemma_nothing(c: FilterConfiguration, below: int)
    requires
        forall|other: FilterStage| #[trigger] belongs(c, other) ==> place(other) != below,
    ensures
        forall|other: FilterStage|
            #![trigger Seq::<FilterStage>::empty().contains(other)]
            Seq::<FilterStage>::empty().contains(other) <==> belongs(c, other) && place(other)
                == below,
{
}

/// A chain holds exactly the filters that were set and change the sound, each
/// with the numbers that it was given, in their fixed order.
pub proof fn a_chain_holds_what_changes_the_sound(c: FilterConfiguration)
    ensures
        forall|stage: FilterStage|
            #![trigger filters::chain_of(c).contains(stage)]
            filters::chain_of(c).contains(stage) <==> belongs(c, stage),
        forall|i: int, j: int|
            0 <= i < j < filters::chain_of(c).len() ==> place(#[trigger] filters::chain_of(c)[i])
                < place(#[trigger] filters::chain_of(c)[j]),
{
    let e = Seq::<FilterStage>::empty();
    assert(built(c, e, 0)) by {
        assert forall|stage: FilterStage|
            #![trigger e.contains(stage)]
            e.contains(stage) <==> belongs(c, stage) && place(stage) < 0 by {}
    }
    let p0 = part(c, 0);
    lemma_part(c, 0);
    lemma_built(c, e, p0, 0);
    assert(e + p0 =~= p0);
    let s1 = p0 + part(c, 1);
    lemma_part(c, 1);
    lemma_built(c, p0, part(c, 1), 1);
    let s2 = s1 + part(c, 2);
    lemma_part(c, 2);
    lemma_built(c, s1, part(c, 2), 2);
    let s3 = s2 + part(c, 3);
    lemma_part(c, 3);
    lemma_built(c, s2, part(c, 3), 3);
    let s4 = s3 + part(c, 4);
    lemma_part(c, 4);
    lemma_built(c, s3, part(c, 4), 4);
    let s5 = s4 + part(c, 5);
    lemma_part(c, 5);
    lemma_built(c, s4, part(c, 5), 5);
    let s6 = s5 + part(c, 6);
    lemma_part(c, 6);
    lemma_built(c, s5, part(c, 6), 6);
    let s7 = s6 + part(c, 7);
    lemma_part(c, 7);
    lemma_built(c, s6, part(c, 7), 7);
    let s8 = s7 + part(c, 8);
    lemma_part(c, 8);
    lemma_built(c, s7, part(c, 8), 8);
    let s9 = s8 + part(c, 9);
    lemma_part(c, 9);
    lemma_built(c, s8, part(c, 9), 9);
    let s10 = s9 + part(c, 10);
    lemma_part(c, 10);
    lemma_built(c, s9, part(c, 10), 10);
    assert(filters::chain_of(c) == s10);
}

/// The part of a chain at a place.
spec fn part(c: FilterConfiguration, at: int) -> Seq<FilterStage> {
    let one = Real32 { bits: 0x3F80_0000 };
    let zero = Real32 { bits: 0 };
    if at == 0 {
        match c.volume {
            Some(v) => filters::stage_if(v.differs(one), FilterStage::Volume(v)),
            None => Seq::empty(),
        }
    } else if at == 1 {
        match c.equalizer {
            Some(v) => filters::stage_if(filters::has_gain(v), FilterStage::Equalizer(v)),
            None => Seq::empty(),
        }
    } else if at == 2 {
        match c.karaoke {
            Some(v) => filters::stage_if(true, FilterStage::Karaoke(v)),
            None => Seq::empty(),
        }
    } else if at == 3 {
        match c.timescale {
            Some(v) => filters::stage_if(filters::scales(v), FilterStage::Timescale(v)),
            None => Seq::empty(),
        }
    } else if at == 4 {
        match c.tremolo {
            Some(v) => filters::stage_if(v.depth.differs(zero), FilterStage::Tremolo(v)),
            None => Seq::empty(),
        }
    } else if at == 5 {
        match c.vibrato {
            Some(v) => filters::stage_if(v.depth.differs(zero), FilterStage::Vibrato(v)),
            None => Seq::empty(),
        }
    } else if at == 6 {
        match c.distortion {
            Some(v) => filters::stage_if(filters::distorts(v), FilterStage::Distortion(v)),
            None => Seq::empty(),
        }
    } else if at == 7 {
        match c.rotation_hz {
            Some(v) => filters::stage_if(
                v.differs(Real64 { bits: 0 }),
                FilterStage::Rotation(v),
            ),
            None => Seq::empty(),
        }
    } else if at == 8 {
        match c.channel_mix {
            Some(v) => filters::stage_if(filters::mixes(v), FilterStage::ChannelMix(v)),
            None => Seq::empty(),
        }
    } else if at == 9 {
        match c.low_pass_smoothing {
            Some(v) => filters::stage_if(one.less(v), FilterStage::LowPass(v)),
            None => Seq::empty(),
        }
    } else {
        match c.player_volume {
            Some(v) => filters::stage_if(v != 100, FilterStage::PlayerVolume(v)),
            None => Seq::empty(),
        }
    }
}

proof fn lemma_part(c: FilterConfiguration, at: int)
    requires
        0 <= at <= 10,
    ensures
        forall|stage: FilterStage|
            #![trigger part(c, at).contains(stage)]
            part(c, at).contains(stage) <==> belongs(c, stage) && place(stage) == at,
        part(c, at).len() <= 1,
{
    if at == 0 && c.volume is Some {
        let v = c.volume->0;
        lemma_single(c, v.differs(Real32 { bits: 0x3F80_0000 }), FilterStage::Volume(v), at);
    } else if at == 1 && c.equalizer is Some {
        let v = c.equalizer->0;
        lemma_gain(v);
        lemma_single(c, filters::has_gain(v), FilterStage::Equalizer(v), at);
    } else if at == 2 && c.karaoke is Some {
        lemma_single(c, true, FilterStage::Karaoke(c.karaoke->0), at);
    } else if at == 3 && c.timescale is Some {
        let v = c.timescale->0;
        lemma_single(c, filters::scales(v), FilterStage::Timescale(v), at);
    } else if at == 4 && c.tremolo is Some {
        let v = c.tremolo->0;
        lemma_single(c, v.depth.differs(Real32 { bits: 0 }), FilterStage::Tremolo(v), at);
    } else if at == 5 && c.vibrato is Some {
        let v = c.vibrato->0;
        lemma_single(c, v.depth.differs(Real32 { bits: 0 }), FilterStage::Vibrato(v), at);
    } else if at == 6 && c.distortion is Some {
        let v = c.distortion->0;
        lemma_single(c, filters::distorts(v), FilterStage::Distortion(v), at);
    } else if at == 7 && c.rotation_hz is Some {
        let v = c.rotation_hz->0;
        lemma_single(c, v.differs(Real64 { bits: 0 }), FilterStage::Rotation(v), at);
    } else if at == 8 && c.channel_mix is Some {
        let v = c.channel_mix->0;
        lemma_single(c, filters::mixes(v), FilterStage::ChannelMix(v), at);
    } else if at == 9 && c.low_pass_smoothing is Some {
        let v = c.low_pass_smoothing->0;
        lemma_single(c, (Real32 { bits: 0x3F80_0000 }).less(v), FilterStage::LowPass(v), at);
    } else if at == 10 && c.player_volume is Some {
        let v = c.player_volume->0;
        lemma_single(c, v != 100, FilterStage::PlayerVolume(v), at);
    } else {
        lemma_nothing(c, at);
    }
}

proof fn lemma_gain(gains: [Real32; 15])
    ensures
        filters::has_gain(gains) <==> exists|i: int| 0 <= i < 15 && !is_zero(#[trigger] gains@[i]),
{
    if filters::has_gain(gains) {
        let i = choose|i: int|
            0 <= i < 15 && (#[trigger] gains@[i]).differs(Real32 { bits: 0 });
        assert(!is_zero(gains@[i]));
    }
    if exists|i: int| 0 <= i < 15 && !is_zero(#[trigger] gains@[i]) {
        let i = choose|i: int| 0 <= i < 15 && !is_zero(#[trigger] gains@[i]);
        assert(gains@[i].differs(Real32 { bits: 0 }));
    }
}

/// A number between zero and another, both among them. No number that is none
/// is.
pub open spec fn within(value: Real32, highest: u32) -> bool {
    value.bits <= highest || value.bits == 0x8000_0000
}

/// A number above zero; one that is none counts as such.
pub open spec fn above_zero(value: Real64) -> bool {
    0 < value.bits < 0x8000_0000_0000_0000 || value.bits > 0xFFF0_0000_0000_0000
}

/// A modulation whose frequency is not zero or below, and whose depth lies
/// between zero and one.
pub open spec fn modulation_is_fine(modulation: Tremolo) -> bool {
    (0 < modulation.frequency.bits < 0x8000_0000 || modulation.frequency.bits > 0xFF80_0000)
        && within(modulation.depth, 0x3F80_0000)
}

/// Filters are accepted exactly where each is in its range: the volume between
/// zero and five, the bands between zero and fourteen, the timescale above zero
/// and playable, modulations as above, and a vibrato up to fourteen hertz.
/// Neither the volume nor the equalizer may be null.
pub proof fn filters_are_held_to_their_ranges(filters: Filters, ratio_supported: bool)
    ensures
        filters::filters_fault(filters, ratio_supported) is None <==> {
            &&& match filters.volume {
                PatchField::Null => false,
                PatchField::Value(volume) => within(volume, 0x40A0_0000),
                PatchField::Omitted => true,
            }
            &&& match filters.equalizer {
                PatchField::Null => false,
                PatchField::Value(bands) => forall|i: int|
                    0 <= i < bands@.len() ==> 0 <= (#[trigger] bands@[i]).band <= 14,
                PatchField::Omitted => true,
            }
            &&& filters.timescale matches PatchField::Value(timescale) ==> above_zero(
                timescale.speed,
            ) && above_zero(timescale.pitch) && above_zero(timescale.rate) && ratio_supported
            &&& filters.tremolo matches PatchField::Value(tremolo) ==> modulation_is_fine(tremolo)
            &&& filters.vibrato matches PatchField::Value(vibrato) ==> modulation_is_fine(vibrato)
                && !(0x4160_0000 < vibrato.frequency.bits <= 0x7F80_0000)
        },
{
}

/// The gain of a band is that of the last entry that names it, and zero where
/// none does.
pub proof fn the_last_gain_of_a_band_counts(bands: Seq<EqualizerBand>, band: int, i: int)
    ensures
        0 <= i < bands.len() && bands[i].band == band && (forall|k: int|
            i < k < bands.len() ==> (#[trigger] bands[k]).band != band) ==> filters::band_gain(
            bands,
            band,
        ) == bands[i].gain,
        (forall|k: int| 0 <= k < bands.len() ==> (#[trigger] bands[k]).band != band)
            ==> filters::band_gain(bands, band).bits == 0,
    decreases bands.len(),
{
    if bands.len() > 0 {
        let front = bands.drop_last();
        the_last_gain_of_a_band_counts(front, band, i);
        if bands.last().band != band {
            if 0 <= i < bands.len() && bands[i].band == band {
                assert(i < front.len());
                assert(front[i] == bands[i]);
                if forall|k: int| i < k < bands.len() ==> (#[trigger] bands[k]).band != band {
                    assert forall|k: int| i < k < front.len() implies (#[trigger] front[k]).band
                        != band by {
                        assert(front[k] == bands[k]);
                    }
                }
            }
            if forall|k: int| 0 <= k < bands.len() ==> (#[trigger] bands[k]).band != band {
                assert forall|k: int| 0 <= k < front.len() implies (#[trigger] front[k]).band
                    != band by {
                    assert(front[k] == bands[k]);
                }
            }
        } else {
            assert(bands[bands.len() - 1].band == band);
        }
    }
}

/// Whether a setting is the value that was given, and none where none was.
pub open spec fn is_given<T>(set: Option<T>, given: PatchField<T>) -> bool {
    match given {
        PatchField::Value(value) => set == Some(value),
        _ => set is None,
    }
}

/// Playback is told of each filter exactly what was given for that filter.
pub proof fn playback_is_told_what_was_given(configuration: FilterConfiguration, filters: Filters)
    requires
        filters::is_configured(configuration, filters),
    ensures
        is_given(configuration.volume, filters.volume),
        is_given(configuration.karaoke, filters.karaoke),
        is_given(configuration.timescale, filters.timescale),
        is_given(configuration.tremolo, filters.tremolo),
        is_given(configuration.vibrato, filters.vibrato),
        is_given(configuration.distortion, filters.distortion),
        is_given(configuration.channel_mix, filters.channel_mix),
        match filters.rotation {
            PatchField::Value(rotation) => configuration.rotation_hz == Some(rotation.rotation_hz),
            _ => configuration.rotation_hz is None,
        },
        match filters.low_pass {
            PatchField::Value(low_pass) => configuration.low_pass_smoothing == Some(
                low_pass.smoothing,
            ),
            _ => configuration.low_pass_smoothing is None,
        },
        filters.equalizer is Value <==> configuration.equalizer is Some,
        configuration.player_volume is None,
{
}

/// A filter that was set is played: what was given for it, where it changes the
/// sound, stands in the chain of what playback is told.
pub proof fn a_given_timescale_is_played(
    configuration: FilterConfiguration,
    filters: Filters,
    timescale: Timescale,
)
    requires
        filters::is_configured(configuration, filters),
        filters.timescale == PatchField::Value(timescale),
    ensures
        filters::chain_of(configuration).contains(FilterStage::Timescale(timescale)) <==> !(
        is_one_long(timescale.speed) && is_one_long(timescale.pitch) && is_one_long(
            timescale.rate,
        )),
{
    a_chain_holds_what_changes_the_sound(configuration);
}

/// Whether a word is this name.
#[verifier::opaque]
pub open spec fn is_name(word: &'static str, name: Seq<char>) -> bool {
    word@ == name
}

/// Whether a request asks for a filter that is switched off, under its name.
pub open spec fn asks_in_vain(filters: Filters, enabled: FilterConfig, name: Seq<char>) -> bool {
    ||| is_name("volume", name) && filters.volume is Value && !enabled.volume
    ||| is_name("equalizer", name) && filters.equalizer is Value && !enabled.equalizer
    ||| is_name("karaoke", name) && filters.karaoke is Value && !enabled.karaoke
    ||| is_name("timescale", name) && filters.timescale is Value && !enabled.timescale
    ||| is_name("tremolo", name) && filters.tremolo is Value && !enabled.tremolo
    ||| is_name("vibrato", name) && filters.vibrato is Value && !enabled.vibrato
    ||| is_name("distortion", name) && filters.distortion is Value && !enabled.distortion
    ||| is_name("rotation", name) && filters.rotation is Value && !enabled.rotation
    ||| is_name("channelMix", name) && filters.channel_mix is Value && !enabled.channel_mix
    ||| is_name("lowPass", name) && filters.low_pass is Value && !enabled.low_pass
}

/// Whether a name is among others.
#[verifier::opaque]
pub open spec fn is_among(names: Seq<&'static str>, name: Seq<char>) -> bool {
    exists|i: int| 0 <= i < names.len() && (#[trigger] names[i])@ == name
}

proof fn lemma_among(names: Seq<&'static str>, more: &'static str, enabled: bool, asked: bool, name: Seq<char>)
    ensures
        is_among(names + filters::refused(more, enabled, asked), name) <==> is_among(names, name)
            || (!enabled && asked && is_name(more, name)),
{
    reveal(is_among);
    reveal(is_name);
    let all = names + filters::refused(more, enabled, asked);
    if is_among(names, name) {
        let i = choose|i: int| 0 <= i < names.len() && (#[trigger] names[i])@ == name;
        assert(all[i] == names[i]);
    }
    if !enabled && asked {
        assert(all[names.len() as int] == more);
    }
    if is_among(all, name) {
        let i = choose|i: int| 0 <= i < all.len() && (#[trigger] all[i])@ == name;
        if i < names.len() {
            assert(all[i] == names[i]);
        }
    }
}

/// The filters that are refused are exactly those that are asked for and
/// switched off, under the names that clients use.
pub proof fn refused_filters_are_named(filters: Filters, enabled: FilterConfig, name: Seq<char>)
    ensures
        is_among(filters::disabled_names(filters, enabled), name) <==> asks_in_vain(
            filters,
            enabled,
            name,
        ),
{
    let s0 = Seq::<&'static str>::empty();
    assert(!is_among(s0, name)) by {
        reveal(is_among);
    }
    let s1 = s0 + filters::refused("volume", enabled.volume, filters.volume is Value);
    lemma_among(s0, "volume", enabled.volume, filters.volume is Value, name);
    let s2 = s1 + filters::refused("equalizer", enabled.equalizer, filters.equalizer is Value);
    lemma_among(s1, "equalizer", enabled.equalizer, filters.equalizer is Value, name);
    let s3 = s2 + filters::refused("karaoke", enabled.karaoke, filters.karaoke is Value);
    lemma_among(s2, "karaoke", enabled.karaoke, filters.karaoke is Value, name);
    let s4 = s3 + filters::refused("timescale", enabled.timescale, filters.timescale is Value);
    lemma_among(s3, "timescale", enabled.timescale, filters.timescale is Value, name);
    let s5 = s4 + filters::refused("tremolo", enabled.tremolo, filters.tremolo is Value);
    lemma_among(s4, "tremolo", enabled.tremolo, filters.tremolo is Value, name);
    let s6 = s5 + filters::refused("vibrato", enabled.vibrato, filters.vibrato is Value);
    lemma_among(s5, "vibrato", enabled.vibrato, filters.vibrato is Value, name);
    let s7 = s6 + filters::refused("distortion", enabled.distortion, filters.distortion is Value);
    lemma_among(s6, "distortion", enabled.distortion, filters.distortion is Value, name);
    let s8 = s7 + filters::refused("rotation", enabled.rotation, filters.rotation is Value);
    lemma_among(s7, "rotation", enabled.rotation, filters.rotation is Value, name);
    let s9 = s8 + filters::refused("channelMix", enabled.channel_mix, filters.channel_mix is Value);
    lemma_among(s8, "channelMix", enabled.channel_mix, filters.channel_mix is Value, name);
    lemma_among(s9, "lowPass", enabled.low_pass, filters.low_pass is Value, name);
}

/// A client sees the filters that it set, each under its name, and what plugins
/// were told where they were told anything.
pub proof fn clients_see_the_filters_they_set(filters: Filters, texts: FilterTexts)
    ensures
        ({
            let shown = filters::filters_json(filters, texts);
            &&& filters.volume is Value ==> wire_laws::tells(shown, "volume"@, texts.volume@)
            &&& filters.equalizer is Value ==> wire_laws::tells(
                shown,
                "equalizer"@,
                texts.equalizer@,
            )
            &&& filters.karaoke is Value ==> wire_laws::tells(shown, "karaoke"@, texts.karaoke@)
            &&& filters.timescale is Value ==> wire_laws::tells(
                shown,
                "timescale"@,
                texts.timescale@,
            )
            &&& filters.tremolo is Value ==> wire_laws::tells(shown, "tremolo"@, texts.tremolo@)
            &&& filters.vibrato is Value ==> wire_laws::tells(shown, "vibrato"@, texts.vibrato@)
            &&& filters.distortion is Value ==> wire_laws::tells(
                shown,
                "distortion"@,
                texts.distortion@,
            )
            &&& filters.rotation is Value ==> wire_laws::tells(shown, "rotation"@, texts.rotation@)
            &&& filters.channel_mix is Value ==> wire_laws::tells(
                shown,
                "channelMix"@,
                texts.channel_mix@,
            )
            &&& filters.low_pass is Value ==> wire_laws::tells(shown, "lowPass"@, texts.low_pass@)
            &&& filters.plugin_filters.entries@.len() > 0 ==> wire_laws::tells(
                shown,
                "pluginFilters"@,
                json::object_text(*filters.plugin_filters),
            )
        }),
{
    broadcast use wire_laws::group_members;

}

/// A timescale that only speeds up or slows down, between a quarter and four
/// times, is told from one that also changes pitch or rate.
pub proof fn plain_speed_is_told_apart(t: Timescale)
    ensures
        filters::changes_speed_only(t) <==> is_one_long(t.pitch) && is_one_long(t.rate)
            && 0x3FD0_0000_0000_0000 <= t.speed.bits <= 0x4010_0000_0000_0000,
{
}

/// The parameters of a karaoke filter are accepted where its levels lie between
/// zero and one and its band and width between zero and the highest frequency.
pub proof fn karaoke_is_held_to_its_range(config: Karaoke, highest: Real32)
    requires
        highest.bits < 0x7F80_0000,
    ensures
        filters::karaoke_in_range(config, highest) <==> within(config.level, 0x3F80_0000) && within(
            config.mono_level,
            0x3F80_0000,
        ) && within(config.filter_band, highest.bits) && within(config.filter_width, highest.bits),
{
}

/// A filter of which nothing is given has the strengths that clients expect: a
/// timescale of one, modulations twice a second at half depth, a karaoke band at
/// 220 and 100 hertz wide, and a smoothing of twenty.
pub proof fn filters_begin_with_their_defaults(
    timescale: Timescale,
    tremolo: Tremolo,
    karaoke: Karaoke,
    low_pass: LowPass,
    rotation: Rotation,
)
    requires
        call_ensures(<Timescale as Default>::default, (), timescale),
        call_ensures(<Tremolo as Default>::default, (), tremolo),
        call_ensures(<Karaoke as Default>::default, (), karaoke),
        call_ensures(<LowPass as Default>::default, (), low_pass),
        call_ensures(<Rotation as Default>::default, (), rotation),
    ensures
        is_one_long(timescale.speed) && is_one_long(timescale.pitch) && is_one_long(timescale.rate),
        tremolo.frequency.bits == 0x4000_0000 && tremolo.depth.bits == 0x3F00_0000,
        is_one(karaoke.level) && is_one(karaoke.mono_level),
        karaoke.filter_band.bits == 0x435C_0000 && karaoke.filter_width.bits == 0x42C8_0000,
        low_pass.smoothing.bits == 0x41A0_0000,
        is_zero_long(rotation.rotation_hz),
{
}

/// A mix and a distortion of which nothing is given leave the sound as it is.
pub proof fn plain_filters_change_nothing(mix: ChannelMix, distortion: Distortion)
    requires
        call_ensures(<ChannelMix as Default>::default, (), mix),
        call_ensures(<Distortion as Default>::default, (), distortion),
    ensures
        is_one(mix.left_to_left) && is_zero(mix.left_to_right),
        is_zero(mix.right_to_left) && is_one(mix.right_to_right),
        is_zero(distortion.sin_offset) && is_one(distortion.sin_scale),
        is_zero(distortion.cos_offset) && is_one(distortion.cos_scale),
        is_zero(distortion.tan_offset) && is_one(distortion.tan_scale),
        is_zero(distortion.offset) && is_one(distortion.scale),
{
}

} // verus!
