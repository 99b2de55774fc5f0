//! Unit conversion for the withdraw endpoint: validating which quantity
//! field a request carries and picking the fixed conversion to apply.
//!
//! The mapping is deliberately asymmetric: "liters" converts to gallons
//! while "litres" converts to pints, and only the four listed pairs of
//! fields conflict.

use vstd::prelude::*;

verus! {

/// Which of the four quantity fields a conversion request carries.
#[derive(Clone, Copy, PartialEq, Eq, Structural, Debug)]
pub struct ConvertRequest {
    pub gallons: bool,
    pub liters: bool,
    pub litres: bool,
    pub pints: bool,
}

/// The fixed conversions, each named after its input field; the numeric
/// factor is applied by the caller that holds the quantity.
#[derive(Clone, Copy, PartialEq, Eq, Structural, Debug)]
pub enum Conversion {
    GallonsToLiters,
    LitersToGallons,
    LitresToPints,
    PintsToLitres,
}

/// Validation and selection: a conflicting pair of fields or an absent
/// quantity is rejected; otherwise the first present field in the fixed
/// order gallons, liters, litres, pints picks the conversion.
pub open spec fn spec_try_to_convert(q: ConvertRequest) -> Result<Conversion, ()> {
    if q.gallons && q.liters {
        Err(())
    } else if q.litres && q.liters {
        Err(())
    } else if q.gallons && q.pints {
        Err(())
    } else if q.litres && q.pints {
        Err(())
    } else if q.gallons {
        Ok(Conversion::GallonsToLiters)
    } else if q.liters {
        Ok(Conversion::LitersToGallons)
    } else if q.litres {
        Ok(Conversion::LitresToPints)
    } else if q.pints {
        Ok(Conversion::PintsToLitres)
    } else {
        Err(())
    }
}

/// Pick the conversion a request asks for, or reject it.
pub fn try_to_convert(q: ConvertRequest) -> (r: Result<Conversion, ()>)
    ensures
        r == spec_try_to_convert(q),
        !(q.gallons || q.liters || q.litres || q.pints) ==> r is Err,
        q.gallons && !q.liters && !q.litres && !q.pints ==> r == Ok::<Conversion, ()>(
            Conversion::GallonsToLiters,
        ),
        q.liters && !q.gallons && !q.litres && !q.pints ==> r == Ok::<Conversion, ()>(
            Conversion::LitersToGallons,
        ),
        q.litres && !q.gallons && !q.liters && !q.pints ==> r == Ok::<Conversion, ()>(
            Conversion::LitresToPints,
        ),
        q.pints && !q.gallons && !q.liters && !q.litres ==> r == Ok::<Conversion, ()>(
            Conversion::PintsToLitres,
        ),
{
    if q.gallons && q.liters {
        Err(())
    } else if q.litres && q.liters {
        Err(())
    } else if q.gallons && q.pints {
        Err(())
    } else if q.litres && q.pints {
        Err(())
    } else if q.gallons {
        Ok(Conversion::GallonsToLiters)
    } else if q.liters {
        Ok(Conversion::LitersToGallons)
    } else if q.litres {
        Ok(Conversion::LitresToPints)
    } else if q.pints {
        Ok(Conversion::PintsToLitres)
    } else {
        Err(())
    }
}

/// The output unit a conversion reports its result under.
pub open spec fn spec_result_unit(c: Conversion) -> Seq<char> {
    match c {
        Conversion::GallonsToLiters => "liters"@,
        Conversion::LitersToGallons => "gallons"@,
        Conversion::LitresToPints => "pints"@,
        Conversion::PintsToLitres => "litres"@,
    }
}

/// The name of the output unit of a conversion.
pub fn result_unit(c: Conversion) -> (r: String)
    ensures
        r@ == spec_result_unit(c),
{
    match c {
        Conversion::GallonsToLiters => "liters".to_owned(),
        Conversion::LitersToGallons => "gallons".to_owned(),
        Conversion::LitresToPints => "pints".to_owned(),
        Conversion::PintsToLitres => "litres".to_owned(),
    }
}

/// What the withdraw endpoint replies once the bucket has answered.
#[derive(Clone, Copy, PartialEq, Eq, Structural, Debug)]
pub enum MilkDecision {
    /// The bucket was empty: rate limit exceeded, nothing converted.
    NoMilk,
    /// Milk withdrawn, no structured payload asked for a conversion.
    Plain,
    /// Milk withdrawn and the payload picked this conversion.
    Converted(Conversion),
    /// Milk withdrawn but the structured payload was missing or invalid.
    BadPayload,
}

impl MilkDecision {
    /// The response status of this decision: an exhausted bucket is "too
    /// many requests", a missing or invalid payload is "bad request", and
    /// both successful replies are plain success.
    pub fn http_status(&self) -> (s: u16)
        ensures
            match self {
                MilkDecision::NoMilk => s == 429,
                MilkDecision::Plain => s == 200,
                MilkDecision::Converted(_) => s == 200,
                MilkDecision::BadPayload => s == 400,
            },
    {
        match self {
            MilkDecision::NoMilk => 429,
            MilkDecision::Plain => 200,
            MilkDecision::Converted(_) => 200,
            MilkDecision::BadPayload => 400,
        }
    }
}

/// The withdraw endpoint's decision: a failed withdrawal wins over
/// everything; a request that declares a structured payload must carry a
/// valid one; anything else is a plain acknowledgement.
pub open spec fn spec_milk_decision(
    withdrew: bool,
    is_json: bool,
    payload: Option<ConvertRequest>,
) -> MilkDecision {
    if !withdrew {
        MilkDecision::NoMilk
    } else if is_json {
        match payload {
            Some(q) => match spec_try_to_convert(q) {
                Ok(c) => MilkDecision::Converted(c),
                Err(_) => MilkDecision::BadPayload,
            },
            None => MilkDecision::BadPayload,
        }
    } else {
        MilkDecision::Plain
    }
}

/// Decide the withdraw endpoint's reply from the withdrawal result, whether
/// the request declared a structured payload, and the payload's fields.
pub fn milk_decision(withdrew: bool, is_json: bool, payload: Option<ConvertRequest>) -> (r:
    MilkDecision)
    ensures
        r == spec_milk_decision(withdrew, is_json, payload),
{
    if !withdrew {
        MilkDecision::NoMilk
    } else if is_json {
        match payload {
            Some(q) => match try_to_convert(q) {
                Ok(c) => MilkDecision::Converted(c),
                Err(_) => MilkDecision::BadPayload,
            },
            None => MilkDecision::BadPayload,
        }
    } else {
        MilkDecision::Plain
    }
}

} // verus!
