use vstd::prelude::*;

verus! {

/// One of the two ADS126x converters of the board.
#[derive(Clone, Copy, Debug, PartialEq, Eq, Structural)]
pub enum AdcId {
    Adc1,
    Adc2,
}

/// The converter that is not `adc`.
pub open spec fn spec_other(adc: AdcId) -> AdcId {
    match adc {
        AdcId::Adc1 => AdcId::Adc2,
        AdcId::Adc2 => AdcId::Adc1,
    }
}

/// A level driven onto the chip-select line of one converter. The lines are
/// active low: a converter is selected while its line is low.
#[derive(Clone, Copy, Debug, PartialEq, Eq, Structural)]
pub struct PinWrite {
    pub adc: AdcId,
    pub high: bool,
}

/// The levels of both chip-select lines.
#[derive(Clone, Copy, Debug, PartialEq, Eq, Structural)]
pub struct ChipSelect {
    pub adc1_high: bool,
    pub adc2_high: bool,
}

/// Whether `adc` is selected (its line is low).
pub open spec fn is_selected(cs: ChipSelect, adc: AdcId) -> bool {
    match adc {
        AdcId::Adc1 => !cs.adc1_high,
        AdcId::Adc2 => !cs.adc2_high,
    }
}

/// The chip-select levels after `w` was driven.
pub open spec fn spec_apply(cs: ChipSelect, w: PinWrite) -> ChipSelect {
    match w.adc {
        AdcId::Adc1 => ChipSelect { adc1_high: w.high, adc2_high: cs.adc2_high },
        AdcId::Adc2 => ChipSelect { adc1_high: cs.adc1_high, adc2_high: w.high },
    }
}

/// The writes that select `target`: first the other converter is released,
/// then `target` is pulled low.
pub open spec fn spec_select_writes(target: AdcId) -> (PinWrite, PinWrite) {
    (PinWrite { adc: spec_other(target), high: true }, PinWrite { adc: target, high: false })
}

/// The two chip-select writes, in order, that make `target` the selected converter.
pub fn select_writes(target: AdcId) -> (r: (PinWrite, PinWrite))
    ensures
        r == spec_select_writes(target),
{
    match target {
        AdcId::Adc1 => (PinWrite { adc: AdcId::Adc2, high: true }, PinWrite { adc: AdcId::Adc1, high: false }),
        AdcId::Adc2 => (PinWrite { adc: AdcId::Adc1, high: true }, PinWrite { adc: AdcId::Adc2, high: false }),
    }
}

/// The chip-select levels after `w` was driven.
pub fn apply_write(cs: ChipSelect, w: PinWrite) -> (r: ChipSelect)
    ensures
        r == spec_apply(cs, w),
        w.adc == AdcId::Adc1 ==> r.adc1_high == w.high && r.adc2_high == cs.adc2_high,
        w.adc == AdcId::Adc2 ==> r.adc2_high == w.high && r.adc1_high == cs.adc1_high,
{
    match w.adc {
        AdcId::Adc1 => ChipSelect { adc1_high: w.high, adc2_high: cs.adc2_high },
        AdcId::Adc2 => ChipSelect { adc1_high: cs.adc1_high, adc2_high: w.high },
    }
}

/// A chip-select write drives only its own line: the written converter's
/// line takes the written level (selected exactly when it is low), and the
/// other converter's line keeps its level, so its selection is unchanged.
pub proof fn lemma_write_touches_one_line(cs: ChipSelect, w: PinWrite)
    ensures
        w.adc == AdcId::Adc1 ==> spec_apply(cs, w) == (ChipSelect { adc1_high: w.high, adc2_high: cs.adc2_high }),
        w.adc == AdcId::Adc2 ==> spec_apply(cs, w) == (ChipSelect { adc1_high: cs.adc1_high, adc2_high: w.high }),
        is_selected(spec_apply(cs, w), w.adc) == !w.high,
        is_selected(spec_apply(cs, w), spec_other(w.adc)) == is_selected(cs, spec_other(w.adc)),
{
}

/// Selecting a converter leaves it the only one selected, whatever the lines
/// held before, and the two converters are never selected together while
/// the writes are applied: the other one is released before the target is
/// pulled low.
pub proof fn lemma_select_is_exclusive(cs: ChipSelect, target: AdcId)
    ensures
        ({
            let (w0, w1) = spec_select_writes(target);
            let mid = spec_apply(cs, w0);
            let end = spec_apply(mid, w1);
            &&& !is_selected(mid, spec_other(target))
            &&& is_selected(end, target)
            &&& !is_selected(end, spec_other(target))
        }),
{
}

} // verus!
