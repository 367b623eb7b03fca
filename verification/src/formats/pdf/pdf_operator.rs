//! The operators of the content streams of paged documents.

use crate::text::str_eq;
use vstd::prelude::*;

verus! {

/// An operator of a content stream.
#[allow(non_camel_case_types)]
#[derive(Clone, Copy, Debug, PartialEq, Eq, Structural)]
pub enum PdfOperator {
    /// Set the line width in the graphics state.
    w,
    /// Set the line cap style in the graphics state.
    J,
    /// Set the line join style in the graphics state.
    j,
    /// Set the miter limit in the graphics state.
    M,
    /// Set the line dash pattern in the graphics state.
    d,
    /// Set the colour rendering intent in the graphics state.
    ri,
    /// Set the flatness tolerance in the graphics state.
    i,
    /// Set the specified parameters in the graphics state.
    gs,
    /// Save the current graphics state on the graphics state stack.
    q,
    /// Restore the graphics state that was saved last.
    Q,
    /// Modify the current transformation matrix.
    cm,
    /// Begin a new subpath.
    m,
    /// Append a straight line segment.
    l,
    /// Append a cubic Bezier curve with two control points.
    c,
    /// Append a cubic Bezier curve that uses the current point as a control point.
    v,
    /// Append a cubic Bezier curve that uses the end point as a control point.
    y,
    /// Close the current subpath.
    h,
    /// Append a rectangle to the current path.
    re,
    /// Stroke the path.
    S,
    /// Close and stroke the path.
    s,
    /// Fill the path by the nonzero winding number rule.
    f,
    /// Equivalent to `f`; kept for compatibility.
    F,
    /// Fill the path by the even-odd rule.
    fStar,
    /// Fill and then stroke the path by the nonzero winding number rule.
    B,
    /// Fill and then stroke the path by the even-odd rule.
    BStar,
    /// Close, fill and then stroke the path by the nonzero winding number rule.
    b,
    /// Close, fill and then stroke the path by the even-odd rule.
    bStar,
    /// End the path without filling or stroking it.
    n,
    /// Set the clipping path by the nonzero winding number rule.
    W,
    /// Set the clipping path by the even-odd rule.
    WStar,
    /// Begin a text object.
    BT,
    /// End a text object.
    ET,
    /// Set the character spacing.
    Tc,
    /// Set the word spacing.
    Tw,
    /// Set the horizontal scaling.
    Tz,
    /// Set the text leading.
    TL,
    /// Set the text font and size.
    Tf,
    /// Set the text rendering mode.
    Tr,
    /// Set the text rise.
    Ts,
    /// Move to the start of the next line.
    Td,
    /// Move to the start of the next line and set the leading.
    TD,
    /// Set the text matrix and the text line matrix.
    Tm,
    /// Move to the start of the next line.
    TStar,
    /// Show a text string.
    Tj,
    /// Show one or more text strings with individual glyph positioning.
    TJ,
    /// Move to the next line and show a text string.
    SingleQuote,
    /// Set the word and character spacing, move to the next line and show a text string.
    DoubleQuote,
    /// Set width information for a glyph of a Type 3 font.
    d0,
    /// Set width and bounding box information for a glyph of a Type 3 font.
    d1,
    /// Set the colour space for stroking.
    CS,
    /// Set the colour space for nonstroking.
    cs,
    /// Set the colour for stroking.
    SC,
    /// Set the colour for stroking, with more colour spaces.
    SCN,
    /// Set the colour for nonstroking.
    sc,
    /// Set the colour for nonstroking, with more colour spaces.
    scn,
    /// Set the stroking colour space to gray and set the gray level.
    G,
    /// Set the nonstroking colour space to gray and set the gray level.
    g,
    /// Set the stroking colour space to RGB and set the colour.
    RG,
    /// Set the nonstroking colour space to RGB and set the colour.
    rg,
    /// Set the stroking colour space to CMYK and set the colour.
    K,
    /// Set the nonstroking colour space to CMYK and set the colour.
    k,
    /// Paint the shape and colour shading of a shading dictionary.
    sh,
    /// Begin an inline image object.
    BI,
    /// Begin the image data of an inline image object.
    ID,
    /// End an inline image object.
    EI,
    /// Paint the named XObject.
    Do,
    /// Designate a marked-content point.
    MP,
    /// Designate a marked-content point with a property list.
    DP,
    /// Begin a marked-content sequence.
    BMC,
    /// Begin a marked-content sequence with a property list.
    BDC,
    /// End a marked-content sequence.
    EMC,
    /// Begin a compatibility section.
    BX,
    /// End a compatibility section.
    EX,
}

/// An entry of the array that the operator `TJ` takes.
#[derive(Debug)]
pub enum TJArrayEntries {
    /// An adjustment of the position.
    Integer(i64),
    /// A text string.
    String(String),
}

/// A text names no operator.
#[derive(Clone, Copy, Debug, PartialEq, Eq, Structural)]
pub enum ParseError {
    /// No operator has that name.
    VariantNotFound,
}

/// The operator that a text names in a content stream.
pub open spec fn operator_named(text: Seq<char>) -> Option<PdfOperator> {
    if text == "w"@ {
        Some(PdfOperator::w)
    } else if text == "J"@ {
        Some(PdfOperator::J)
    } else if text == "j"@ {
        Some(PdfOperator::j)
    } else if text == "M"@ {
        Some(PdfOperator::M)
    } else if text == "d"@ {
        Some(PdfOperator::d)
    } else if text == "ri"@ {
        Some(PdfOperator::ri)
    } else if text == "i"@ {
        Some(PdfOperator::i)
    } else if text == "gs"@ {
        Some(PdfOperator::gs)
    } else if text == "q"@ {
        Some(PdfOperator::q)
    } else if text == "Q"@ {
        Some(PdfOperator::Q)
    } else if text == "cm"@ {
        Some(PdfOperator::cm)
    } else if text == "m"@ {
        Some(PdfOperator::m)
    } else if text == "l"@ {
        Some(PdfOperator::l)
    } else if text == "c"@ {
        Some(PdfOperator::c)
    } else if text == "v"@ {
        Some(PdfOperator::v)
    } else if text == "y"@ {
        Some(PdfOperator::y)
    } else if text == "h"@ {
        Some(PdfOperator::h)
    } else if text == "re"@ {
        Some(PdfOperator::re)
    } else if text == "S"@ {
        Some(PdfOperator::S)
    } else if text == "s"@ {
        Some(PdfOperator::s)
    } else if text == "f"@ {
        Some(PdfOperator::f)
    } else if text == "F"@ {
        Some(PdfOperator::F)
    } else if text == "f*"@ {
        Some(PdfOperator::fStar)
    } else if text == "B"@ {
        Some(PdfOperator::B)
    } else if text == "B*"@ {
        Some(PdfOperator::BStar)
    } else if text == "b"@ {
        Some(PdfOperator::b)
    } else if text == "b*"@ {
        Some(PdfOperator::bStar)
    } else if text == "n"@ {
        Some(PdfOperator::n)
    } else if text == "W"@ {
        Some(PdfOperator::W)
    } else if text == "W*"@ {
        Some(PdfOperator::WStar)
    } else if text == "BT"@ {
        Some(PdfOperator::BT)
    } else if text == "ET"@ {
        Some(PdfOperator::ET)
    } else if text == "Tc"@ {
        Some(PdfOperator::Tc)
    } else if text == "Tw"@ {
        Some(PdfOperator::Tw)
    } else if text == "Tz"@ {
        Some(PdfOperator::Tz)
    } else if text == "TL"@ {
        Some(PdfOperator::TL)
    } else if text == "Tf"@ {
        Some(PdfOperator::Tf)
    } else if text == "Tr"@ {
        Some(PdfOperator::Tr)
    } else if text == "Ts"@ {
        Some(PdfOperator::Ts)
    } else if text == "Td"@ {
        Some(PdfOperator::Td)
    } else if text == "TD"@ {
        Some(PdfOperator::TD)
    } else if text == "Tm"@ {
        Some(PdfOperator::Tm)
    } else if text == "T*"@ {
        Some(PdfOperator::TStar)
    } else if text == "Tj"@ {
        Some(PdfOperator::Tj)
    } else if text == "TJ"@ {
        Some(PdfOperator::TJ)
    } else if text == "'"@ {
        Some(PdfOperator::SingleQuote)
    } else if text == "\""@ {
        Some(PdfOperator::DoubleQuote)
    } else if text == "d0"@ {
        Some(PdfOperator::d0)
    } else if text == "d1"@ {
        Some(PdfOperator::d1)
    } else if text == "CS"@ {
        Some(PdfOperator::CS)
    } else if text == "cs"@ {
        Some(PdfOperator::cs)
    } else if text == "SC"@ {
        Some(PdfOperator::SC)
    } else if text == "SCN"@ {
        Some(PdfOperator::SCN)
    } else if text == "sc"@ {
        Some(PdfOperator::sc)
    } else if text == "scn"@ {
        Some(PdfOperator::scn)
    } else if text == "G"@ {
        Some(PdfOperator::G)
    } else if text == "g"@ {
        Some(PdfOperator::g)
    } else if text == "RG"@ {
        Some(PdfOperator::RG)
    } else if text == "rg"@ {
        Some(PdfOperator::rg)
    } else if text == "K"@ {
        Some(PdfOperator::K)
    } else if text == "k"@ {
        Some(PdfOperator::k)
    } else if text == "sh"@ {
        Some(PdfOperator::sh)
    } else if text == "BI"@ {
        Some(PdfOperator::BI)
    } else if text == "ID"@ {
        Some(PdfOperator::ID)
    } else if text == "EI"@ {
        Some(PdfOperator::EI)
    } else if text == "Do"@ {
        Some(PdfOperator::Do)
    } else if text == "MP"@ {
        Some(PdfOperator::MP)
    } else if text == "DP"@ {
        Some(PdfOperator::DP)
    } else if text == "BMZ"@ {
        Some(PdfOperator::BMC)
    } else if text == "BDC"@ {
        Some(PdfOperator::BDC)
    } else if text == "EMC"@ {
        Some(PdfOperator::EMC)
    } else if text == "BX"@ {
        Some(PdfOperator::BX)
    } else if text == "EX"@ {
        Some(PdfOperator::EX)
    } else {
        None
    }
}

impl PdfOperator {
    /// The operator takes no operand.
    pub open spec fn takes_no_operand(self) -> bool {
        match self {
            PdfOperator::S | PdfOperator::s | PdfOperator::f | PdfOperator::F | PdfOperator::fStar | PdfOperator::B | PdfOperator::BStar | PdfOperator::b | PdfOperator::bStar | PdfOperator::n | PdfOperator::BT | PdfOperator::ET | PdfOperator::BI | PdfOperator::ID | PdfOperator::EI | PdfOperator::EMC | PdfOperator::BX | PdfOperator::EX => true,
            _ => false,
        }
    }

    /// Reads an operator from its name in a content stream.
    pub fn from_str(s: &str) -> (res: Result<PdfOperator, ParseError>)
        ensures
            match operator_named(s@) {
                Some(operator) => res == Ok::<PdfOperator, ParseError>(operator),
                None => res == Err::<PdfOperator, ParseError>(ParseError::VariantNotFound),
            },
    {
        if str_eq(s, "w") {
            Ok(PdfOperator::w)
        } else if str_eq(s, "J") {
            Ok(PdfOperator::J)
        } else if str_eq(s, "j") {
            Ok(PdfOperator::j)
        } else if str_eq(s, "M") {
            Ok(PdfOperator::M)
        } else if str_eq(s, "d") {
            Ok(PdfOperator::d)
        } else if str_eq(s, "ri") {
            Ok(PdfOperator::ri)
        } else if str_eq(s, "i") {
            Ok(PdfOperator::i)
        } else if str_eq(s, "gs") {
            Ok(PdfOperator::gs)
        } else if str_eq(s, "q") {
            Ok(PdfOperator::q)
        } else if str_eq(s, "Q") {
            Ok(PdfOperator::Q)
        } else if str_eq(s, "cm") {
            Ok(PdfOperator::cm)
        } else if str_eq(s, "m") {
            Ok(PdfOperator::m)
        } else if str_eq(s, "l") {
            Ok(PdfOperator::l)
        } else if str_eq(s, "c") {
            Ok(PdfOperator::c)
        } else if str_eq(s, "v") {
            Ok(PdfOperator::v)
        } else if str_eq(s, "y") {
            Ok(PdfOperator::y)
        } else if str_eq(s, "h") {
            Ok(PdfOperator::h)
        } else if str_eq(s, "re") {
            Ok(PdfOperator::re)
        } else if str_eq(s, "S") {
            Ok(PdfOperator::S)
        } else if str_eq(s, "s") {
            Ok(PdfOperator::s)
        } else if str_eq(s, "f") {
            Ok(PdfOperator::f)
        } else if str_eq(s, "F") {
            Ok(PdfOperator::F)
        } else if str_eq(s, "f*") {
            Ok(PdfOperator::fStar)
        } else if str_eq(s, "B") {
            Ok(PdfOperator::B)
        } else if str_eq(s, "B*") {
            Ok(PdfOperator::BStar)
        } else if str_eq(s, "b") {
            Ok(PdfOperator::b)
        } else if str_eq(s, "b*") {
            Ok(PdfOperator::bStar)
        } else if str_eq(s, "n") {
            Ok(PdfOperator::n)
        } else if str_eq(s, "W") {
            Ok(PdfOperator::W)
        } else if str_eq(s, "W*") {
            Ok(PdfOperator::WStar)
        } else if str_eq(s, "BT") {
            Ok(PdfOperator::BT)
        } else if str_eq(s, "ET") {
            Ok(PdfOperator::ET)
        } else if str_eq(s, "Tc") {
            Ok(PdfOperator::Tc)
        } else if str_eq(s, "Tw") {
            Ok(PdfOperator::Tw)
        } else if str_eq(s, "Tz") {
            Ok(PdfOperator::Tz)
        } else if str_eq(s, "TL") {
            Ok(PdfOperator::TL)
        } else if str_eq(s, "Tf") {
            Ok(PdfOperator::Tf)
        } else if str_eq(s, "Tr") {
            Ok(PdfOperator::Tr)
        } else if str_eq(s, "Ts") {
            Ok(PdfOperator::Ts)
        } else if str_eq(s, "Td") {
            Ok(PdfOperator::Td)
        } else if str_eq(s, "TD") {
            Ok(PdfOperator::TD)
        } else if str_eq(s, "Tm") {
            Ok(PdfOperator::Tm)
        } else if str_eq(s, "T*") {
            Ok(PdfOperator::TStar)
        } else if str_eq(s, "Tj") {
            Ok(PdfOperator::Tj)
        } else if str_eq(s, "TJ") {
            Ok(PdfOperator::TJ)
        } else if str_eq(s, "'") {
            Ok(PdfOperator::SingleQuote)
        } else if str_eq(s, "\"") {
            Ok(PdfOperator::DoubleQuote)
        } else if str_eq(s, "d0") {
            Ok(PdfOperator::d0)
        } else if str_eq(s, "d1") {
            Ok(PdfOperator::d1)
        } else if str_eq(s, "CS") {
            Ok(PdfOperator::CS)
        } else if str_eq(s, "cs") {
            Ok(PdfOperator::cs)
        } else if str_eq(s, "SC") {
            Ok(PdfOperator::SC)
        } else if str_eq(s, "SCN") {
            Ok(PdfOperator::SCN)
        } else if str_eq(s, "sc") {
            Ok(PdfOperator::sc)
        } else if str_eq(s, "scn") {
            Ok(PdfOperator::scn)
        } else if str_eq(s, "G") {
            Ok(PdfOperator::G)
        } else if str_eq(s, "g") {
            Ok(PdfOperator::g)
        } else if str_eq(s, "RG") {
            Ok(PdfOperator::RG)
        } else if str_eq(s, "rg") {
            Ok(PdfOperator::rg)
        } else if str_eq(s, "K") {
            Ok(PdfOperator::K)
        } else if str_eq(s, "k") {
            Ok(PdfOperator::k)
        } else if str_eq(s, "sh") {
            Ok(PdfOperator::sh)
        } else if str_eq(s, "BI") {
            Ok(PdfOperator::BI)
        } else if str_eq(s, "ID") {
            Ok(PdfOperator::ID)
        } else if str_eq(s, "EI") {
            Ok(PdfOperator::EI)
        } else if str_eq(s, "Do") {
            Ok(PdfOperator::Do)
        } else if str_eq(s, "MP") {
            Ok(PdfOperator::MP)
        } else if str_eq(s, "DP") {
            Ok(PdfOperator::DP)
        } else if str_eq(s, "BMZ") {
            Ok(PdfOperator::BMC)
        } else if str_eq(s, "BDC") {
            Ok(PdfOperator::BDC)
        } else if str_eq(s, "EMC") {
            Ok(PdfOperator::EMC)
        } else if str_eq(s, "BX") {
            Ok(PdfOperator::BX)
        } else if str_eq(s, "EX") {
            Ok(PdfOperator::EX)
        } else {
            Err(ParseError::VariantNotFound)
        }
    }

    /// The operands that the operator may take. Known only of the operators that take
    /// none.
    pub fn allowed_operands(&self) -> (operands: Vec<String>)
        requires
            self.takes_no_operand(),
        ensures
            operands@ == Seq::<String>::empty(),
    {
        Vec::new()
    }
}

} // verus!
