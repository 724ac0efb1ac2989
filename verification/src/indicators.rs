//! The technical-analysis reading types and the one-line summary built
//! from them.  The numeric indicator computation itself is an external
//! collaborator; the library states and renders its outcome.

use vstd::prelude::*;

verus! {

/// How the moving averages are ordered.
#[derive(Clone, Copy, PartialEq, Eq, Structural)]
pub enum MaAlignment {
    Bullish,
    Bearish,
    Tangled,
}

/// How volume and price moved together.
#[derive(Clone, Copy, PartialEq, Eq, Structural)]
pub enum VolumePriceRelation {
    VolumeUpPriceUp,
    VolumeDownPriceUp,
    VolumeUpPriceDown,
    VolumeDownPriceDown,
    Normal,
}

/// One detected technical signal.
pub struct TechnicalSignal {
    pub signal_type: String,
    pub direction: String,
    pub description: String,
    pub strength: u8,
    pub date: String,
}

/// The reading of the moving-average alignment.
pub open spec fn spec_ma_text(ma: MaAlignment) -> Seq<char> {
    match ma {
        MaAlignment::Bullish => "均线多头排列"@,
        MaAlignment::Bearish => "均线空头排列"@,
        MaAlignment::Tangled => "均线纠缠"@,
    }
}

/// The reading of the volume-price relation.
pub open spec fn spec_vp_text(vp: VolumePriceRelation) -> Seq<char> {
    match vp {
        VolumePriceRelation::VolumeUpPriceUp => "放量上涨"@,
        VolumePriceRelation::VolumeDownPriceUp => "缩量上涨"@,
        VolumePriceRelation::VolumeUpPriceDown => "放量下跌"@,
        VolumePriceRelation::VolumeDownPriceDown => "缩量下跌"@,
        VolumePriceRelation::Normal => "量价正常"@,
    }
}

/// The separated descriptions of the first `fuel` strong signals
/// (strength at least three), each preceded by the separator.
pub open spec fn spec_strong_tail(signals: Seq<TechnicalSignal>, fuel: int) -> Seq<char>
    decreases signals.len(),
{
    if signals.len() == 0 || fuel <= 0 {
        Seq::empty()
    } else if signals[0].strength >= 3 {
        "；"@ + signals[0].description@ + spec_strong_tail(signals.drop_first(), fuel - 1)
    } else {
        spec_strong_tail(signals.drop_first(), fuel)
    }
}

/// The one-line technical summary: the alignment, the volume-price
/// relation, and up to three strong signal descriptions, separated.
pub open spec fn spec_generate_summary(
    ma: MaAlignment,
    vp: VolumePriceRelation,
    signals: Seq<TechnicalSignal>,
) -> Seq<char> {
    spec_ma_text(ma) + "；"@ + spec_vp_text(vp) + spec_strong_tail(signals, 3)
}

/// Builds the one-line technical summary from an alignment reading, a
/// volume-price reading, and the detected signals.
pub fn generate_summary(
    ma_alignment: &MaAlignment,
    volume_price: &VolumePriceRelation,
    signals: &Vec<TechnicalSignal>,
) -> (r: String)
    ensures
        r@ == spec_generate_summary(*ma_alignment, *volume_price, signals@),
{
    let mut out = String::new();
    match ma_alignment {
        MaAlignment::Bullish => out.append("均线多头排列"),
        MaAlignment::Bearish => out.append("均线空头排列"),
        MaAlignment::Tangled => out.append("均线纠缠"),
    }
    out.append("；");
    match volume_price {
        VolumePriceRelation::VolumeUpPriceUp => out.append("放量上涨"),
        VolumePriceRelation::VolumeDownPriceUp => out.append("缩量上涨"),
        VolumePriceRelation::VolumeUpPriceDown => out.append("放量下跌"),
        VolumePriceRelation::VolumeDownPriceDown => out.append("缩量下跌"),
        VolumePriceRelation::Normal => out.append("量价正常"),
    }
    let ghost head = out@;
    let n = signals.len();
    let mut i: usize = 0;
    let mut fuel: usize = 3;
    proof {
        assert(signals@.skip(0) =~= signals@);
    }
    while i < n
        invariant
            i <= n,
            n == signals@.len(),
            fuel <= 3,
            out@ + spec_strong_tail(signals@.skip(i as int), fuel as int) == head
                + spec_strong_tail(signals@, 3),
        decreases n - i,
    {
        proof {
            assert(signals@.skip(i as int).drop_first() =~= signals@.skip(i + 1));
            assert(signals@.skip(i as int)[0] == signals@[i as int]);
        }
        if fuel > 0 && signals[i].strength >= 3 {
            out.append("；");
            let piece = signals[i].description.clone();
            out.append(piece.as_str());
            fuel -= 1;
            proof {
                assert(out@ + spec_strong_tail(signals@.skip(i + 1), fuel as int) =~= head
                    + spec_strong_tail(signals@, 3));
            }
        } else if fuel == 0 {
            proof {
                assert(spec_strong_tail(signals@.skip(i as int), 0) =~= Seq::<char>::empty());
                assert(spec_strong_tail(signals@.skip(i + 1), 0) =~= Seq::<char>::empty());
            }
        }
        i += 1;
    }
    proof {
        assert(signals@.skip(n as int) =~= Seq::<TechnicalSignal>::empty());
        assert(out@ =~= head + spec_strong_tail(signals@, 3));
        assert(out@ =~= spec_generate_summary(*ma_alignment, *volume_price, signals@));
    }
    out
}

} // verus!
