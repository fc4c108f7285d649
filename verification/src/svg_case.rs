//! The case of names inside an `svg` element. Names are stored in lowercase; where an
//! SVG element or attribute name has capitals (`clipPath`, `viewBox`), it is written
//! out with them, as the HTML standard lists them.
use vstd::prelude::*;

use crate::css::selectors::tag::lower;
use crate::html::eq_str;
use crate::text::chars_of;

verus! {

/// The SVG element name that the lowercase name `n` stands for.
pub closed spec fn svg_tag_case(n: Seq<char>) -> Seq<char> {
    if n == "altglyph"@ {
        "altGlyph"@
    } else if n == "altglyphdef"@ {
        "altGlyphDef"@
    } else if n == "altglyphitem"@ {
        "altGlyphItem"@
    } else if n == "animatecolor"@ {
        "animateColor"@
    } else if n == "animatemotion"@ {
        "animateMotion"@
    } else if n == "animatetransform"@ {
        "animateTransform"@
    } else if n == "clippath"@ {
        "clipPath"@
    } else if n == "feblend"@ {
        "feBlend"@
    } else if n == "fecolormatrix"@ {
        "feColorMatrix"@
    } else if n == "fecomponenttransfer"@ {
        "feComponentTransfer"@
    } else if n == "fecomposite"@ {
        "feComposite"@
    } else if n == "feconvolvematrix"@ {
        "feConvolveMatrix"@
    } else if n == "fediffuselighting"@ {
        "feDiffuseLighting"@
    } else if n == "fedisplacementmap"@ {
        "feDisplacementMap"@
    } else if n == "fedistantlight"@ {
        "feDistantLight"@
    } else if n == "fedropshadow"@ {
        "feDropShadow"@
    } else if n == "feflood"@ {
        "feFlood"@
    } else if n == "fefunca"@ {
        "feFuncA"@
    } else if n == "fefuncb"@ {
        "feFuncB"@
    } else if n == "fefuncg"@ {
        "feFuncG"@
    } else if n == "fefuncr"@ {
        "feFuncR"@
    } else if n == "fegaussianblur"@ {
        "feGaussianBlur"@
    } else if n == "feimage"@ {
        "feImage"@
    } else if n == "femerge"@ {
        "feMerge"@
    } else if n == "femergenode"@ {
        "feMergeNode"@
    } else if n == "femorphology"@ {
        "feMorphology"@
    } else if n == "feoffset"@ {
        "feOffset"@
    } else if n == "fepointlight"@ {
        "fePointLight"@
    } else if n == "fespecularlighting"@ {
        "feSpecularLighting"@
    } else if n == "fespotlight"@ {
        "feSpotLight"@
    } else if n == "fetile"@ {
        "feTile"@
    } else if n == "feturbulence"@ {
        "feTurbulence"@
    } else if n == "foreignobject"@ {
        "foreignObject"@
    } else if n == "glyphref"@ {
        "glyphRef"@
    } else if n == "lineargradient"@ {
        "linearGradient"@
    } else if n == "radialgradient"@ {
        "radialGradient"@
    } else if n == "textpath"@ {
        "textPath"@
    } else {
        n
    }
}

/// The SVG attribute name that the lowercase name `n` stands for.
pub closed spec fn svg_attr_case(n: Seq<char>) -> Seq<char> {
    if n == "attributename"@ {
        "attributeName"@
    } else if n == "attributetype"@ {
        "attributeType"@
    } else if n == "basefrequency"@ {
        "baseFrequency"@
    } else if n == "baseprofile"@ {
        "baseProfile"@
    } else if n == "calcmode"@ {
        "calcMode"@
    } else if n == "clippathunits"@ {
        "clipPathUnits"@
    } else if n == "diffuseconstant"@ {
        "diffuseConstant"@
    } else if n == "edgemode"@ {
        "edgeMode"@
    } else if n == "filterunits"@ {
        "filterUnits"@
    } else if n == "glyphref"@ {
        "glyphRef"@
    } else if n == "gradienttransform"@ {
        "gradientTransform"@
    } else if n == "gradientunits"@ {
        "gradientUnits"@
    } else if n == "kernelmatrix"@ {
        "kernelMatrix"@
    } else if n == "kernelunitlength"@ {
        "kernelUnitLength"@
    } else if n == "keypoints"@ {
        "keyPoints"@
    } else if n == "keysplines"@ {
        "keySplines"@
    } else if n == "keytimes"@ {
        "keyTimes"@
    } else if n == "lengthadjust"@ {
        "lengthAdjust"@
    } else if n == "limitingconeangle"@ {
        "limitingConeAngle"@
    } else if n == "markerheight"@ {
        "markerHeight"@
    } else if n == "markerunits"@ {
        "markerUnits"@
    } else if n == "markerwidth"@ {
        "markerWidth"@
    } else if n == "maskcontentunits"@ {
        "maskContentUnits"@
    } else if n == "maskunits"@ {
        "maskUnits"@
    } else if n == "numoctaves"@ {
        "numOctaves"@
    } else if n == "pathlength"@ {
        "pathLength"@
    } else if n == "patterncontentunits"@ {
        "patternContentUnits"@
    } else if n == "patterntransform"@ {
        "patternTransform"@
    } else if n == "patternunits"@ {
        "patternUnits"@
    } else if n == "pointsatx"@ {
        "pointsAtX"@
    } else if n == "pointsaty"@ {
        "pointsAtY"@
    } else if n == "pointsatz"@ {
        "pointsAtZ"@
    } else if n == "preservealpha"@ {
        "preserveAlpha"@
    } else if n == "preserveaspectratio"@ {
        "preserveAspectRatio"@
    } else if n == "primitiveunits"@ {
        "primitiveUnits"@
    } else if n == "refx"@ {
        "refX"@
    } else if n == "refy"@ {
        "refY"@
    } else if n == "repeatcount"@ {
        "repeatCount"@
    } else if n == "repeatdur"@ {
        "repeatDur"@
    } else if n == "requiredextensions"@ {
        "requiredExtensions"@
    } else if n == "requiredfeatures"@ {
        "requiredFeatures"@
    } else if n == "specularconstant"@ {
        "specularConstant"@
    } else if n == "specularexponent"@ {
        "specularExponent"@
    } else if n == "spreadmethod"@ {
        "spreadMethod"@
    } else if n == "startoffset"@ {
        "startOffset"@
    } else if n == "stddeviation"@ {
        "stdDeviation"@
    } else if n == "stitchtiles"@ {
        "stitchTiles"@
    } else if n == "surfacescale"@ {
        "surfaceScale"@
    } else if n == "systemlanguage"@ {
        "systemLanguage"@
    } else if n == "tablevalues"@ {
        "tableValues"@
    } else if n == "targetx"@ {
        "targetX"@
    } else if n == "targety"@ {
        "targetY"@
    } else if n == "textlength"@ {
        "textLength"@
    } else if n == "viewbox"@ {
        "viewBox"@
    } else if n == "viewtarget"@ {
        "viewTarget"@
    } else if n == "xchannelselector"@ {
        "xChannelSelector"@
    } else if n == "ychannelselector"@ {
        "yChannelSelector"@
    } else if n == "zoomandpan"@ {
        "zoomAndPan"@
    } else {
        n
    }
}

/// The SVG element name that the lowercase name `n` stands for.
pub fn svg_tag_name(n: &Vec<char>) -> (r: Vec<char>)
    ensures
        r@ == svg_tag_case(n@),
{
    if eq_str(n, "altglyph") {
        chars_of("altGlyph")
    } else if eq_str(n, "altglyphdef") {
        chars_of("altGlyphDef")
    } else if eq_str(n, "altglyphitem") {
        chars_of("altGlyphItem")
    } else if eq_str(n, "animatecolor") {
        chars_of("animateColor")
    } else if eq_str(n, "animatemotion") {
        chars_of("animateMotion")
    } else if eq_str(n, "animatetransform") {
        chars_of("animateTransform")
    } else if eq_str(n, "clippath") {
        chars_of("clipPath")
    } else if eq_str(n, "feblend") {
        chars_of("feBlend")
    } else if eq_str(n, "fecolormatrix") {
        chars_of("feColorMatrix")
    } else if eq_str(n, "fecomponenttransfer") {
        chars_of("feComponentTransfer")
    } else if eq_str(n, "fecomposite") {
        chars_of("feComposite")
    } else if eq_str(n, "feconvolvematrix") {
        chars_of("feConvolveMatrix")
    } else if eq_str(n, "fediffuselighting") {
        chars_of("feDiffuseLighting")
    } else if eq_str(n, "fedisplacementmap") {
        chars_of("feDisplacementMap")
    } else if eq_str(n, "fedistantlight") {
        chars_of("feDistantLight")
    } else if eq_str(n, "fedropshadow") {
        chars_of("feDropShadow")
    } else if eq_str(n, "feflood") {
        chars_of("feFlood")
    } else if eq_str(n, "fefunca") {
        chars_of("feFuncA")
    } else if eq_str(n, "fefuncb") {
        chars_of("feFuncB")
    } else if eq_str(n, "fefuncg") {
        chars_of("feFuncG")
    } else if eq_str(n, "fefuncr") {
        chars_of("feFuncR")
    } else if eq_str(n, "fegaussianblur") {
        chars_of("feGaussianBlur")
    } else if eq_str(n, "feimage") {
        chars_of("feImage")
    } else if eq_str(n, "femerge") {
        chars_of("feMerge")
    } else if eq_str(n, "femergenode") {
        chars_of("feMergeNode")
    } else if eq_str(n, "femorphology") {
        chars_of("feMorphology")
    } else if eq_str(n, "feoffset") {
        chars_of("feOffset")
    } else if eq_str(n, "fepointlight") {
        chars_of("fePointLight")
    } else if eq_str(n, "fespecularlighting") {
        chars_of("feSpecularLighting")
    } else if eq_str(n, "fespotlight") {
        chars_of("feSpotLight")
    } else if eq_str(n, "fetile") {
        chars_of("feTile")
    } else if eq_str(n, "feturbulence") {
        chars_of("feTurbulence")
    } else if eq_str(n, "foreignobject") {
        chars_of("foreignObject")
    } else if eq_str(n, "glyphref") {
        chars_of("glyphRef")
    } else if eq_str(n, "lineargradient") {
        chars_of("linearGradient")
    } else if eq_str(n, "radialgradient") {
        chars_of("radialGradient")
    } else if eq_str(n, "textpath") {
        chars_of("textPath")
    } else {
        n.clone()
    }
}

/// The SVG attribute name that the lowercase name `n` stands for.
pub fn svg_attr_name(n: &Vec<char>) -> (r: Vec<char>)
    ensures
        r@ == svg_attr_case(n@),
{
    if eq_str(n, "attributename") {
        chars_of("attributeName")
    } else if eq_str(n, "attributetype") {
        chars_of("attributeType")
    } else if eq_str(n, "basefrequency") {
        chars_of("baseFrequency")
    } else if eq_str(n, "baseprofile") {
        chars_of("baseProfile")
    } else if eq_str(n, "calcmode") {
        chars_of("calcMode")
    } else if eq_str(n, "clippathunits") {
        chars_of("clipPathUnits")
    } else if eq_str(n, "diffuseconstant") {
        chars_of("diffuseConstant")
    } else if eq_str(n, "edgemode") {
        chars_of("edgeMode")
    } else if eq_str(n, "filterunits") {
        chars_of("filterUnits")
    } else if eq_str(n, "glyphref") {
        chars_of("glyphRef")
    } else if eq_str(n, "gradienttransform") {
        chars_of("gradientTransform")
    } else if eq_str(n, "gradientunits") {
        chars_of("gradientUnits")
    } else if eq_str(n, "kernelmatrix") {
        chars_of("kernelMatrix")
    } else if eq_str(n, "kernelunitlength") {
        chars_of("kernelUnitLength")
    } else if eq_str(n, "keypoints") {
        chars_of("keyPoints")
    } else if eq_str(n, "keysplines") {
        chars_of("keySplines")
    } else if eq_str(n, "keytimes") {
        chars_of("keyTimes")
    } else if eq_str(n, "lengthadjust") {
        chars_of("lengthAdjust")
    } else if eq_str(n, "limitingconeangle") {
        chars_of("limitingConeAngle")
    } else if eq_str(n, "markerheight") {
        chars_of("markerHeight")
    } else if eq_str(n, "markerunits") {
        chars_of("markerUnits")
    } else if eq_str(n, "markerwidth") {
        chars_of("markerWidth")
    } else if eq_str(n, "maskcontentunits") {
        chars_of("maskContentUnits")
    } else if eq_str(n, "maskunits") {
        chars_of("maskUnits")
    } else if eq_str(n, "numoctaves") {
        chars_of("numOctaves")
    } else if eq_str(n, "pathlength") {
        chars_of("pathLength")
    } else if eq_str(n, "patterncontentunits") {
        chars_of("patternContentUnits")
    } else if eq_str(n, "patterntransform") {
        chars_of("patternTransform")
    } else if eq_str(n, "patternunits") {
        chars_of("patternUnits")
    } else if eq_str(n, "pointsatx") {
        chars_of("pointsAtX")
    } else if eq_str(n, "pointsaty") {
        chars_of("pointsAtY")
    } else if eq_str(n, "pointsatz") {
        chars_of("pointsAtZ")
    } else if eq_str(n, "preservealpha") {
        chars_of("preserveAlpha")
    } else if eq_str(n, "preserveaspectratio") {
        chars_of("preserveAspectRatio")
    } else if eq_str(n, "primitiveunits") {
        chars_of("primitiveUnits")
    } else if eq_str(n, "refx") {
        chars_of("refX")
    } else if eq_str(n, "refy") {
        chars_of("refY")
    } else if eq_str(n, "repeatcount") {
        chars_of("repeatCount")
    } else if eq_str(n, "repeatdur") {
        chars_of("repeatDur")
    } else if eq_str(n, "requiredextensions") {
        chars_of("requiredExtensions")
    } else if eq_str(n, "requiredfeatures") {
        chars_of("requiredFeatures")
    } else if eq_str(n, "specularconstant") {
        chars_of("specularConstant")
    } else if eq_str(n, "specularexponent") {
        chars_of("specularExponent")
    } else if eq_str(n, "spreadmethod") {
        chars_of("spreadMethod")
    } else if eq_str(n, "startoffset") {
        chars_of("startOffset")
    } else if eq_str(n, "stddeviation") {
        chars_of("stdDeviation")
    } else if eq_str(n, "stitchtiles") {
        chars_of("stitchTiles")
    } else if eq_str(n, "surfacescale") {
        chars_of("surfaceScale")
    } else if eq_str(n, "systemlanguage") {
        chars_of("systemLanguage")
    } else if eq_str(n, "tablevalues") {
        chars_of("tableValues")
    } else if eq_str(n, "targetx") {
        chars_of("targetX")
    } else if eq_str(n, "targety") {
        chars_of("targetY")
    } else if eq_str(n, "textlength") {
        chars_of("textLength")
    } else if eq_str(n, "viewbox") {
        chars_of("viewBox")
    } else if eq_str(n, "viewtarget") {
        chars_of("viewTarget")
    } else if eq_str(n, "xchannelselector") {
        chars_of("xChannelSelector")
    } else if eq_str(n, "ychannelselector") {
        chars_of("yChannelSelector")
    } else if eq_str(n, "zoomandpan") {
        chars_of("zoomAndPan")
    } else {
        n.clone()
    }
}

/// The SVG element names that the HTML standard writes with capitals.
pub open spec fn svg_capital_tags() -> Seq<Seq<char>> {
    seq![
        "altGlyph"@,
        "altGlyphDef"@,
        "altGlyphItem"@,
        "animateColor"@,
        "animateMotion"@,
        "animateTransform"@,
        "clipPath"@,
        "feBlend"@,
        "feColorMatrix"@,
        "feComponentTransfer"@,
        "feComposite"@,
        "feConvolveMatrix"@,
        "feDiffuseLighting"@,
        "feDisplacementMap"@,
        "feDistantLight"@,
        "feDropShadow"@,
        "feFlood"@,
        "feFuncA"@,
        "feFuncB"@,
        "feFuncG"@,
        "feFuncR"@,
        "feGaussianBlur"@,
        "feImage"@,
        "feMerge"@,
        "feMergeNode"@,
        "feMorphology"@,
        "feOffset"@,
        "fePointLight"@,
        "feSpecularLighting"@,
        "feSpotLight"@,
        "feTile"@,
        "feTurbulence"@,
        "foreignObject"@,
        "glyphRef"@,
        "linearGradient"@,
        "radialGradient"@,
        "textPath"@,
    ]
}

proof fn tag_case_0()
    ensures
        svg_tag_case(lower("altGlyph"@)) == "altGlyph"@,
{
    reveal_strlit("altGlyph");
    reveal_strlit("altglyph");
    assert(svg_tag_case("altglyph"@) == "altGlyph"@) by {
    }
    assert(lower("altGlyph"@) =~= "altglyph"@);
}

proof fn tag_case_1()
    ensures
        svg_tag_case(lower("altGlyphDef"@)) == "altGlyphDef"@,
{
    reveal_strlit("altGlyphDef");
    reveal_strlit("altglyph");
    reveal_strlit("altglyphdef");
    assert(svg_tag_case("altglyphdef"@) == "altGlyphDef"@) by {
        assert("altglyphdef"@ != "altglyph"@) by { assert("altglyphdef"@.len() != "altglyph"@.len()); }
    }
    assert(lower("altGlyphDef"@) =~= "altglyphdef"@);
}

proof fn tag_case_2()
    ensures
        svg_tag_case(lower("altGlyphItem"@)) == "altGlyphItem"@,
{
    reveal_strlit("altGlyphItem");
    reveal_strlit("altglyph");
    reveal_strlit("altglyphdef");
    reveal_strlit("altglyphitem");
    assert(svg_tag_case("altglyphitem"@) == "altGlyphItem"@) by {
        assert("altglyphitem"@ != "altglyph"@) by { assert("altglyphitem"@.len() != "altglyph"@.len()); }
        assert("altglyphitem"@ != "altglyphdef"@) by { assert("altglyphitem"@.len() != "altglyphdef"@.len()); }
    }
    assert(lower("altGlyphItem"@) =~= "altglyphitem"@);
}

proof fn tag_case_3()
    ensures
        svg_tag_case(lower("animateColor"@)) == "animateColor"@,
{
    reveal_strlit("animateColor");
    reveal_strlit("altglyph");
    reveal_strlit("altglyphdef");
    reveal_strlit("altglyphitem");
    reveal_strlit("animatecolor");
    assert(svg_tag_case("animatecolor"@) == "animateColor"@) by {
        assert("animatecolor"@ != "altglyph"@) by { assert("animatecolor"@.len() != "altglyph"@.len()); }
        assert("animatecolor"@ != "altglyphdef"@) by { assert("animatecolor"@.len() != "altglyphdef"@.len()); }
        assert("animatecolor"@ != "altglyphitem"@) by { assert("animatecolor"@[1] != "altglyphitem"@[1]); }
    }
    assert(lower("animateColor"@) =~= "animatecolor"@);
}

proof fn tag_case_4()
    ensures
        svg_tag_case(lower("animateMotion"@)) == "animateMotion"@,
{
    reveal_strlit("animateMotion");
    reveal_strlit("altglyph");
    reveal_strlit("altglyphdef");
    reveal_strlit("altglyphitem");
    reveal_strlit("animatecolor");
    reveal_strlit("animatemotion");
    assert(svg_tag_case("animatemotion"@) == "animateMotion"@) by {
        assert("animatemotion"@ != "altglyph"@) by { assert("animatemotion"@.len() != "altglyph"@.len()); }
        assert("animatemotion"@ != "altglyphdef"@) by { assert("animatemotion"@.len() != "altglyphdef"@.len()); }
        assert("animatemotion"@ != "altglyphitem"@) by { assert("animatemotion"@.len() != "altglyphitem"@.len()); }
        assert("animatemotion"@ != "animatecolor"@) by { assert("animatemotion"@.len() != "animatecolor"@.len()); }
    }
    assert(lower("animateMotion"@) =~= "animatemotion"@);
}

proof fn tag_case_5()
    ensures
        svg_tag_case(lower("animateTransform"@)) == "animateTransform"@,
{
    reveal_strlit("animateTransform");
    reveal_strlit("altglyph");
    reveal_strlit("altglyphdef");
    reveal_strlit("altglyphitem");
    reveal_strlit("animatecolor");
    reveal_strlit("animatemotion");
    reveal_strlit("animatetransform");
    assert(svg_tag_case("animatetransform"@) == "animateTransform"@) by {
        assert("animatetransform"@ != "altglyph"@) by { assert("animatetransform"@.len() != "altglyph"@.len()); }
        assert("animatetransform"@ != "altglyphdef"@) by { assert("animatetransform"@.len() != "altglyphdef"@.len()); }
        assert("animatetransform"@ != "altglyphitem"@) by { assert("animatetransform"@.len() != "altglyphitem"@.len()); }
        assert("animatetransform"@ != "animatecolor"@) by { assert("animatetransform"@.len() != "animatecolor"@.len()); }
        assert("animatetransform"@ != "animatemotion"@) by { assert("animatetransform"@.len() != "animatemotion"@.len()); }
    }
    assert(lower("animateTransform"@) =~= "animatetransform"@);
}

proof fn tag_case_6()
    ensures
        svg_tag_case(lower("clipPath"@)) == "clipPath"@,
{
    reveal_strlit("clipPath");
    reveal_strlit("altglyph");
    reveal_strlit("altglyphdef");
    reveal_strlit("altglyphitem");
    reveal_strlit("animatecolor");
    reveal_strlit("animatemotion");
    reveal_strlit("animatetransform");
    reveal_strlit("clippath");
    assert(svg_tag_case("clippath"@) == "clipPath"@) by {
        assert("clippath"@ != "altglyph"@) by { assert("clippath"@[0] != "altglyph"@[0]); }
        assert("clippath"@ != "altglyphdef"@) by { assert("clippath"@.len() != "altglyphdef"@.len()); }
        assert("clippath"@ != "altglyphitem"@) by { assert("clippath"@.len() != "altglyphitem"@.len()); }
        assert("clippath"@ != "animatecolor"@) by { assert("clippath"@.len() != "animatecolor"@.len()); }
        assert("clippath"@ != "animatemotion"@) by { assert("clippath"@.len() != "animatemotion"@.len()); }
        assert("clippath"@ != "animatetransform"@) by { assert("clippath"@.len() != "animatetransform"@.len()); }
    }
    assert(lower("clipPath"@) =~= "clippath"@);
}

proof fn tag_case_7()
    ensures
        svg_tag_case(lower("feBlend"@)) == "feBlend"@,
{
    reveal_strlit("feBlend");
    reveal_strlit("altglyph");
    reveal_strlit("altglyphdef");
    reveal_strlit("altglyphitem");
    reveal_strlit("animatecolor");
    reveal_strlit("animatemotion");
    reveal_strlit("animatetransform");
    reveal_strlit("clippath");
    reveal_strlit("feblend");
    assert(svg_tag_case("feblend"@) == "feBlend"@) by {
        assert("feblend"@ != "altglyph"@) by { assert("feblend"@.len() != "altglyph"@.len()); }
        assert("feblend"@ != "altglyphdef"@) by { assert("feblend"@.len() != "altglyphdef"@.len()); }
        assert("feblend"@ != "altglyphitem"@) by { assert("feblend"@.len() != "altglyphitem"@.len()); }
        assert("feblend"@ != "animatecolor"@) by { assert("feblend"@.len() != "animatecolor"@.len()); }
        assert("feblend"@ != "animatemotion"@) by { assert("feblend"@.len() != "animatemotion"@.len()); }
        assert("feblend"@ != "animatetransform"@) by { assert("feblend"@.len() != "animatetransform"@.len()); }
        assert("feblend"@ != "clippath"@) by { assert("feblend"@.len() != "clippath"@.len()); }
    }
    assert(lower("feBlend"@) =~= "feblend"@);
}

proof fn tag_case_8()
    ensures
        svg_tag_case(lower("feColorMatrix"@)) == "feColorMatrix"@,
{
    reveal_strlit("feColorMatrix");
    reveal_strlit("altglyph");
    reveal_strlit("altglyphdef");
    reveal_strlit("altglyphitem");
    reveal_strlit("animatecolor");
    reveal_strlit("animatemotion");
    reveal_strlit("animatetransform");
    reveal_strlit("clippath");
    reveal_strlit("feblend");
    reveal_strlit("fecolormatrix");
    assert(svg_tag_case("fecolormatrix"@) == "feColorMatrix"@) by {
        assert("fecolormatrix"@ != "altglyph"@) by { assert("fecolormatrix"@.len() != "altglyph"@.len()); }
        assert("fecolormatrix"@ != "altglyphdef"@) by { assert("fecolormatrix"@.len() != "altglyphdef"@.len()); }
        assert("fecolormatrix"@ != "altglyphitem"@) by { assert("fecolormatrix"@.len() != "altglyphitem"@.len()); }
        assert("fecolormatrix"@ != "animatecolor"@) by { assert("fecolormatrix"@.len() != "animatecolor"@.len()); }
        assert("fecolormatrix"@ != "animatemotion"@) by { assert("fecolormatrix"@[0] != "animatemotion"@[0]); }
        assert("fecolormatrix"@ != "animatetransform"@) by { assert("fecolormatrix"@.len() != "animatetransform"@.len()); }
        assert("fecolormatrix"@ != "clippath"@) by { assert("fecolormatrix"@.len() != "clippath"@.len()); }
        assert("fecolormatrix"@ != "feblend"@) by { assert("fecolormatrix"@.len() != "feblend"@.len()); }
    }
    assert(lower("feColorMatrix"@) =~= "fecolormatrix"@);
}

proof fn tag_case_9()
    ensures
        svg_tag_case(lower("feComponentTransfer"@)) == "feComponentTransfer"@,
{
    reveal_strlit("feComponentTransfer");
    reveal_strlit("altglyph");
    reveal_strlit("altglyphdef");
    reveal_strlit("altglyphitem");
    reveal_strlit("animatecolor");
    reveal_strlit("animatemotion");
    reveal_strlit("animatetransform");
    reveal_strlit("clippath");
    reveal_strlit("feblend");
    reveal_strlit("fecolormatrix");
    reveal_strlit("fecomponenttransfer");
    assert(svg_tag_case("fecomponenttransfer"@) == "feComponentTransfer"@) by {
        assert("fecomponenttransfer"@ != "altglyph"@) by { assert("fecomponenttransfer"@.len() != "altglyph"@.len()); }
        assert("fecomponenttransfer"@ != "altglyphdef"@) by { assert("fecomponenttransfer"@.len() != "altglyphdef"@.len()); }
        assert("fecomponenttransfer"@ != "altglyphitem"@) by { assert("fecomponenttransfer"@.len() != "altglyphitem"@.len()); }
        assert("fecomponenttransfer"@ != "animatecolor"@) by { assert("fecomponenttransfer"@.len() != "animatecolor"@.len()); }
        assert("fecomponenttransfer"@ != "animatemotion"@) by { assert("fecomponenttransfer"@.len() != "animatemotion"@.len()); }
        assert("fecomponenttransfer"@ != "animatetransform"@) by { assert("fecomponenttransfer"@.len() != "animatetransform"@.len()); }
        assert("fecomponenttransfer"@ != "clippath"@) by { assert("fecomponenttransfer"@.len() != "clippath"@.len()); }
        assert("fecomponenttransfer"@ != "feblend"@) by { assert("fecomponenttransfer"@.len() != "feblend"@.len()); }
        assert("fecomponenttransfer"@ != "fecolormatrix"@) by { assert("fecomponenttransfer"@.len() != "fecolormatrix"@.len()); }
    }
    assert(lower("feComponentTransfer"@) =~= "fecomponenttransfer"@);
}

proof fn tag_case_10()
    ensures
        svg_tag_case(lower("feComposite"@)) == "feComposite"@,
{
    reveal_strlit("feComposite");
    reveal_strlit("altglyph");
    reveal_strlit("altglyphdef");
    reveal_strlit("altglyphitem");
    reveal_strlit("animatecolor");
    reveal_strlit("animatemotion");
    reveal_strlit("animatetransform");
    reveal_strlit("clippath");
    reveal_strlit("feblend");
    reveal_strlit("fecolormatrix");
    reveal_strlit("fecomponenttransfer");
    reveal_strlit("fecomposite");
    assert(svg_tag_case("fecomposite"@) == "feComposite"@) by {
        assert("fecomposite"@ != "altglyph"@) by { assert("fecomposite"@.len() != "altglyph"@.len()); }
        assert("fecomposite"@ != "altglyphdef"@) by { assert("fecomposite"@[0] != "altglyphdef"@[0]); }
        assert("fecomposite"@ != "altglyphitem"@) by { assert("fecomposite"@.len() != "altglyphitem"@.len()); }
        assert("fecomposite"@ != "animatecolor"@) by { assert("fecomposite"@.len() != "animatecolor"@.len()); }
        assert("fecomposite"@ != "animatemotion"@) by { assert("fecomposite"@.len() != "animatemotion"@.len()); }
        assert("fecomposite"@ != "animatetransform"@) by { assert("fecomposite"@.len() != "animatetransform"@.len()); }
        assert("fecomposite"@ != "clippath"@) by { assert("fecomposite"@.len() != "clippath"@.len()); }
        assert("fecomposite"@ != "feblend"@) by { assert("fecomposite"@.len() != "feblend"@.len()); }
        assert("fecomposite"@ != "fecolormatrix"@) by { assert("fecomposite"@.len() != "fecolormatrix"@.len()); }
        assert("fecomposite"@ != "fecomponenttransfer"@) by { assert("fecomposite"@.len() != "fecomponenttransfer"@.len()); }
    }
    assert(lower("feComposite"@) =~= "fecomposite"@);
}

proof fn tag_case_11()
    ensures
        svg_tag_case(lower("feConvolveMatrix"@)) == "feConvolveMatrix"@,
{
    reveal_strlit("feConvolveMatrix");
    reveal_strlit("altglyph");
    reveal_strlit("altglyphdef");
    reveal_strlit("altglyphitem");
    reveal_strlit("animatecolor");
    reveal_strlit("animatemotion");
    reveal_strlit("animatetransform");
    reveal_strlit("clippath");
    reveal_strlit("feblend");
    reveal_strlit("fecolormatrix");
    reveal_strlit("fecomponenttransfer");
    reveal_strlit("fecomposite");
    reveal_strlit("feconvolvematrix");
    assert(svg_tag_case("feconvolvematrix"@) == "feConvolveMatrix"@) by {
        assert("feconvolvematrix"@ != "altglyph"@) by { assert("feconvolvematrix"@.len() != "altglyph"@.len()); }
        assert("feconvolvematrix"@ != "altglyphdef"@) by { assert("feconvolvematrix"@.len() != "altglyphdef"@.len()); }
        assert("feconvolvematrix"@ != "altglyphitem"@) by { assert("feconvolvematrix"@.len() != "altglyphitem"@.len()); }
        assert("feconvolvematrix"@ != "animatecolor"@) by { assert("feconvolvematrix"@.len() != "animatecolor"@.len()); }
        assert("feconvolvematrix"@ != "animatemotion"@) by { assert("feconvolvematrix"@.len() != "animatemotion"@.len()); }
        assert("feconvolvematrix"@ != "animatetransform"@) by { assert("feconvolvematrix"@[0] != "animatetransform"@[0]); }
        assert("feconvolvematrix"@ != "clippath"@) by { assert("feconvolvematrix"@.len() != "clippath"@.len()); }
        assert("feconvolvematrix"@ != "feblend"@) by { assert("feconvolvematrix"@.len() != "feblend"@.len()); }
        assert("feconvolvematrix"@ != "fecolormatrix"@) by { assert("feconvolvematrix"@.len() != "fecolormatrix"@.len()); }
        assert("feconvolvematrix"@ != "fecomponenttransfer"@) by { assert("feconvolvematrix"@.len() != "fecomponenttransfer"@.len()); }
        assert("feconvolvematrix"@ != "fecomposite"@) by { assert("feconvolvematrix"@.len() != "fecomposite"@.len()); }
    }
    assert(lower("feConvolveMatrix"@) =~= "feconvolvematrix"@);
}

proof fn tag_case_12()
    ensures
        svg_tag_case(lower("feDiffuseLighting"@)) == "feDiffuseLighting"@,
{
    reveal_strlit("feDiffuseLighting");
    reveal_strlit("altglyph");
    reveal_strlit("altglyphdef");
    reveal_strlit("altglyphitem");
    reveal_strlit("animatecolor");
    reveal_strlit("animatemotion");
    reveal_strlit("animatetransform");
    reveal_strlit("clippath");
    reveal_strlit("feblend");
    reveal_strlit("fecolormatrix");
    reveal_strlit("fecomponenttransfer");
    reveal_strlit("fecomposite");
    reveal_strlit("feconvolvematrix");
    reveal_strlit("fediffuselighting");
    assert(svg_tag_case("fediffuselighting"@) == "feDiffuseLighting"@) by {
        assert("fediffuselighting"@ != "altglyph"@) by { assert("fediffuselighting"@.len() != "altglyph"@.len()); }
        assert("fediffuselighting"@ != "altglyphdef"@) by { assert("fediffuselighting"@.len() != "altglyphdef"@.len()); }
        assert("fediffuselighting"@ != "altglyphitem"@) by { assert("fediffuselighting"@.len() != "altglyphitem"@.len()); }
        assert("fediffuselighting"@ != "animatecolor"@) by { assert("fediffuselighting"@.len() != "animatecolor"@.len()); }
        assert("fediffuselighting"@ != "animatemotion"@) by { assert("fediffuselighting"@.len() != "animatemotion"@.len()); }
        assert("fediffuselighting"@ != "animatetransform"@) by { assert("fediffuselighting"@.len() != "animatetransform"@.len()); }
        assert("fediffuselighting"@ != "clippath"@) by { assert("fediffuselighting"@.len() != "clippath"@.len()); }
        assert("fediffuselighting"@ != "feblend"@) by { assert("fediffuselighting"@.len() != "feblend"@.len()); }
        assert("fediffuselighting"@ != "fecolormatrix"@) by { assert("fediffuselighting"@.len() != "fecolormatrix"@.len()); }
        assert("fediffuselighting"@ != "fecomponenttransfer"@) by { assert("fediffuselighting"@.len() != "fecomponenttransfer"@.len()); }
        assert("fediffuselighting"@ != "fecomposite"@) by { assert("fediffuselighting"@.len() != "fecomposite"@.len()); }
        assert("fediffuselighting"@ != "feconvolvematrix"@) by { assert("fediffuselighting"@.len() != "feconvolvematrix"@.len()); }
    }
    assert(lower("feDiffuseLighting"@) =~= "fediffuselighting"@);
}

proof fn tag_case_13()
    ensures
        svg_tag_case(lower("feDisplacementMap"@)) == "feDisplacementMap"@,
{
    reveal_strlit("feDisplacementMap");
    reveal_strlit("altglyph");
    reveal_strlit("altglyphdef");
    reveal_strlit("altglyphitem");
    reveal_strlit("animatecolor");
    reveal_strlit("animatemotion");
    reveal_strlit("animatetransform");
    reveal_strlit("clippath");
    reveal_strlit("feblend");
    reveal_strlit("fecolormatrix");
    reveal_strlit("fecomponenttransfer");
    reveal_strlit("fecomposite");
    reveal_strlit("feconvolvematrix");
    reveal_strlit("fediffuselighting");
    reveal_strlit("fedisplacementmap");
    assert(svg_tag_case("fedisplacementmap"@) == "feDisplacementMap"@) by {
        assert("fedisplacementmap"@ != "altglyph"@) by { assert("fedisplacementmap"@.len() != "altglyph"@.len()); }
        assert("fedisplacementmap"@ != "altglyphdef"@) by { assert("fedisplacementmap"@.len() != "altglyphdef"@.len()); }
        assert("fedisplacementmap"@ != "altglyphitem"@) by { assert("fedisplacementmap"@.len() != "altglyphitem"@.len()); }
        assert("fedisplacementmap"@ != "animatecolor"@) by { assert("fedisplacementmap"@.len() != "animatecolor"@.len()); }
        assert("fedisplacementmap"@ != "animatemotion"@) by { assert("fedisplacementmap"@.len() != "animatemotion"@.len()); }
        assert("fedisplacementmap"@ != "animatetransform"@) by { assert("fedisplacementmap"@.len() != "animatetransform"@.len()); }
        assert("fedisplacementmap"@ != "clippath"@) by { assert("fedisplacementmap"@.len() != "clippath"@.len()); }
        assert("fedisplacementmap"@ != "feblend"@) by { assert("fedisplacementmap"@.len() != "feblend"@.len()); }
        assert("fedisplacementmap"@ != "fecolormatrix"@) by { assert("fedisplacementmap"@.len() != "fecolormatrix"@.len()); }
        assert("fedisplacementmap"@ != "fecomponenttransfer"@) by { assert("fedisplacementmap"@.len() != "fecomponenttransfer"@.len()); }
        assert("fedisplacementmap"@ != "fecomposite"@) by { assert("fedisplacementmap"@.len() != "fecomposite"@.len()); }
        assert("fedisplacementmap"@ != "feconvolvematrix"@) by { assert("fedisplacementmap"@.len() != "feconvolvematrix"@.len()); }
        assert("fedisplacementmap"@ != "fediffuselighting"@) by { assert("fedisplacementmap"@[4] != "fediffuselighting"@[4]); }
    }
    assert(lower("feDisplacementMap"@) =~= "fedisplacementmap"@);
}

proof fn tag_case_14()
    ensures
        svg_tag_case(lower("feDistantLight"@)) == "feDistantLight"@,
{
    reveal_strlit("feDistantLight");
    reveal_strlit("altglyph");
    reveal_strlit("altglyphdef");
    reveal_strlit("altglyphitem");
    reveal_strlit("animatecolor");
    reveal_strlit("animatemotion");
    reveal_strlit("animatetransform");
    reveal_strlit("clippath");
    reveal_strlit("feblend");
    reveal_strlit("fecolormatrix");
    reveal_strlit("fecomponenttransfer");
    reveal_strlit("fecomposite");
    reveal_strlit("feconvolvematrix");
    reveal_strlit("fediffuselighting");
    reveal_strlit("fedisplacementmap");
    reveal_strlit("fedistantlight");
    assert(svg_tag_case("fedistantlight"@) == "feDistantLight"@) by {
        assert("fedistantlight"@ != "altglyph"@) by { assert("fedistantlight"@.len() != "altglyph"@.len()); }
        assert("fedistantlight"@ != "altglyphdef"@) by { assert("fedistantlight"@.len() != "altglyphdef"@.len()); }
        assert("fedistantlight"@ != "altglyphitem"@) by { assert("fedistantlight"@.len() != "altglyphitem"@.len()); }
        assert("fedistantlight"@ != "animatecolor"@) by { assert("fedistantlight"@.len() != "animatecolor"@.len()); }
        assert("fedistantlight"@ != "animatemotion"@) by { assert("fedistantlight"@.len() != "animatemotion"@.len()); }
        assert("fedistantlight"@ != "animatetransform"@) by { assert("fedistantlight"@.len() != "animatetransform"@.len()); }
        assert("fedistantlight"@ != "clippath"@) by { assert("fedistantlight"@.len() != "clippath"@.len()); }
        assert("fedistantlight"@ != "feblend"@) by { assert("fedistantlight"@.len() != "feblend"@.len()); }
        assert("fedistantlight"@ != "fecolormatrix"@) by { assert("fedistantlight"@.len() != "fecolormatrix"@.len()); }
        assert("fedistantlight"@ != "fecomponenttransfer"@) by { assert("fedistantlight"@.len() != "fecomponenttransfer"@.len()); }
        assert("fedistantlight"@ != "fecomposite"@) by { assert("fedistantlight"@.len() != "fecomposite"@.len()); }
        assert("fedistantlight"@ != "feconvolvematrix"@) by { assert("fedistantlight"@.len() != "feconvolvematrix"@.len()); }
        assert("fedistantlight"@ != "fediffuselighting"@) by { assert("fedistantlight"@.len() != "fediffuselighting"@.len()); }
        assert("fedistantlight"@ != "fedisplacementmap"@) by { assert("fedistantlight"@.len() != "fedisplacementmap"@.len()); }
    }
    assert(lower("feDistantLight"@) =~= "fedistantlight"@);
}

proof fn tag_case_15()
    ensures
        svg_tag_case(lower("feDropShadow"@)) == "feDropShadow"@,
{
    reveal_strlit("feDropShadow");
    reveal_strlit("altglyph");
    reveal_strlit("altglyphdef");
    reveal_strlit("altglyphitem");
    reveal_strlit("animatecolor");
    reveal_strlit("animatemotion");
    reveal_strlit("animatetransform");
    reveal_strlit("clippath");
    reveal_strlit("feblend");
    reveal_strlit("fecolormatrix");
    reveal_strlit("fecomponenttransfer");
    reveal_strlit("fecomposite");
    reveal_strlit("feconvolvematrix");
    reveal_strlit("fediffuselighting");
    reveal_strlit("fedisplacementmap");
    reveal_strlit("fedistantlight");
    reveal_strlit("fedropshadow");
    assert(svg_tag_case("fedropshadow"@) == "feDropShadow"@) by {
        assert("fedropshadow"@ != "altglyph"@) by { assert("fedropshadow"@.len() != "altglyph"@.len()); }
        assert("fedropshadow"@ != "altglyphdef"@) by { assert("fedropshadow"@.len() != "altglyphdef"@.len()); }
        assert("fedropshadow"@ != "altglyphitem"@) by { assert("fedropshadow"@[0] != "altglyphitem"@[0]); }
        assert("fedropshadow"@ != "animatecolor"@) by { assert("fedropshadow"@[0] != "animatecolor"@[0]); }
        assert("fedropshadow"@ != "animatemotion"@) by { assert("fedropshadow"@.len() != "animatemotion"@.len()); }
        assert("fedropshadow"@ != "animatetransform"@) by { assert("fedropshadow"@.len() != "animatetransform"@.len()); }
        assert("fedropshadow"@ != "clippath"@) by { assert("fedropshadow"@.len() != "clippath"@.len()); }
        assert("fedropshadow"@ != "feblend"@) by { assert("fedropshadow"@.len() != "feblend"@.len()); }
        assert("fedropshadow"@ != "fecolormatrix"@) by { assert("fedropshadow"@.len() != "fecolormatrix"@.len()); }
        assert("fedropshadow"@ != "fecomponenttransfer"@) by { assert("fedropshadow"@.len() != "fecomponenttransfer"@.len()); }
        assert("fedropshadow"@ != "fecomposite"@) by { assert("fedropshadow"@.len() != "fecomposite"@.len()); }
        assert("fedropshadow"@ != "feconvolvematrix"@) by { assert("fedropshadow"@.len() != "feconvolvematrix"@.len()); }
        assert("fedropshadow"@ != "fediffuselighting"@) by { assert("fedropshadow"@.len() != "fediffuselighting"@.len()); }
        assert("fedropshadow"@ != "fedisplacementmap"@) by { assert("fedropshadow"@.len() != "fedisplacementmap"@.len()); }
        assert("fedropshadow"@ != "fedistantlight"@) by { assert("fedropshadow"@.len() != "fedistantlight"@.len()); }
    }
    assert(lower("feDropShadow"@) =~= "fedropshadow"@);
}

proof fn tag_case_16()
    ensures
        svg_tag_case(lower("feFlood"@)) == "feFlood"@,
{
    reveal_strlit("feFlood");
    reveal_strlit("altglyph");
    reveal_strlit("altglyphdef");
    reveal_strlit("altglyphitem");
    reveal_strlit("animatecolor");
    reveal_strlit("animatemotion");
    reveal_strlit("animatetransform");
    reveal_strlit("clippath");
    reveal_strlit("feblend");
    reveal_strlit("fecolormatrix");
    reveal_strlit("fecomponenttransfer");
    reveal_strlit("fecomposite");
    reveal_strlit("feconvolvematrix");
    reveal_strlit("fediffuselighting");
    reveal_strlit("fedisplacementmap");
    reveal_strlit("fedistantlight");
    reveal_strlit("fedropshadow");
    reveal_strlit("feflood");
    assert(svg_tag_case("feflood"@) == "feFlood"@) by {
        assert("feflood"@ != "altglyph"@) by { assert("feflood"@.len() != "altglyph"@.len()); }
        assert("feflood"@ != "altglyphdef"@) by { assert("feflood"@.len() != "altglyphdef"@.len()); }
        assert("feflood"@ != "altglyphitem"@) by { assert("feflood"@.len() != "altglyphitem"@.len()); }
        assert("feflood"@ != "animatecolor"@) by { assert("feflood"@.len() != "animatecolor"@.len()); }
        assert("feflood"@ != "animatemotion"@) by { assert("feflood"@.len() != "animatemotion"@.len()); }
        assert("feflood"@ != "animatetransform"@) by { assert("feflood"@.len() != "animatetransform"@.len()); }
        assert("feflood"@ != "clippath"@) by { assert("feflood"@.len() != "clippath"@.len()); }
        assert("feflood"@ != "feblend"@) by { assert("feflood"@[2] != "feblend"@[2]); }
        assert("feflood"@ != "fecolormatrix"@) by { assert("feflood"@.len() != "fecolormatrix"@.len()); }
        assert("feflood"@ != "fecomponenttransfer"@) by { assert("feflood"@.len() != "fecomponenttransfer"@.len()); }
        assert("feflood"@ != "fecomposite"@) by { assert("feflood"@.len() != "fecomposite"@.len()); }
        assert("feflood"@ != "feconvolvematrix"@) by { assert("feflood"@.len() != "feconvolvematrix"@.len()); }
        assert("feflood"@ != "fediffuselighting"@) by { assert("feflood"@.len() != "fediffuselighting"@.len()); }
        assert("feflood"@ != "fedisplacementmap"@) by { assert("feflood"@.len() != "fedisplacementmap"@.len()); }
        assert("feflood"@ != "fedistantlight"@) by { assert("feflood"@.len() != "fedistantlight"@.len()); }
        assert("feflood"@ != "fedropshadow"@) by { assert("feflood"@.len() != "fedropshadow"@.len()); }
    }
    assert(lower("feFlood"@) =~= "feflood"@);
}

proof fn tag_case_17()
    ensures
        svg_tag_case(lower("feFuncA"@)) == "feFuncA"@,
{
    reveal_strlit("feFuncA");
    reveal_strlit("altglyph");
    reveal_strlit("altglyphdef");
    reveal_strlit("altglyphitem");
    reveal_strlit("animatecolor");
    reveal_strlit("animatemotion");
    reveal_strlit("animatetransform");
    reveal_strlit("clippath");
    reveal_strlit("feblend");
    reveal_strlit("fecolormatrix");
    reveal_strlit("fecomponenttransfer");
    reveal_strlit("fecomposite");
    reveal_strlit("feconvolvematrix");
    reveal_strlit("fediffuselighting");
    reveal_strlit("fedisplacementmap");
    reveal_strlit("fedistantlight");
    reveal_strlit("fedropshadow");
    reveal_strlit("feflood");
    reveal_strlit("fefunca");
    assert(svg_tag_case("fefunca"@) == "feFuncA"@) by {
        assert("fefunca"@ != "altglyph"@) by { assert("fefunca"@.len() != "altglyph"@.len()); }
        assert("fefunca"@ != "altglyphdef"@) by { assert("fefunca"@.len() != "altglyphdef"@.len()); }
        assert("fefunca"@ != "altglyphitem"@) by { assert("fefunca"@.len() != "altglyphitem"@.len()); }
        assert("fefunca"@ != "animatecolor"@) by { assert("fefunca"@.len() != "animatecolor"@.len()); }
        assert("fefunca"@ != "animatemotion"@) by { assert("fefunca"@.len() != "animatemotion"@.len()); }
        assert("fefunca"@ != "animatetransform"@) by { assert("fefunca"@.len() != "animatetransform"@.len()); }
        assert("fefunca"@ != "clippath"@) by { assert("fefunca"@.len() != "clippath"@.len()); }
        assert("fefunca"@ != "feblend"@) by { assert("fefunca"@[2] != "feblend"@[2]); }
        assert("fefunca"@ != "fecolormatrix"@) by { assert("fefunca"@.len() != "fecolormatrix"@.len()); }
        assert("fefunca"@ != "fecomponenttransfer"@) by { assert("fefunca"@.len() != "fecomponenttransfer"@.len()); }
        assert("fefunca"@ != "fecomposite"@) by { assert("fefunca"@.len() != "fecomposite"@.len()); }
        assert("fefunca"@ != "feconvolvematrix"@) by { assert("fefunca"@.len() != "feconvolvematrix"@.len()); }
        assert("fefunca"@ != "fediffuselighting"@) by { assert("fefunca"@.len() != "fediffuselighting"@.len()); }
        assert("fefunca"@ != "fedisplacementmap"@) by { assert("fefunca"@.len() != "fedisplacementmap"@.len()); }
        assert("fefunca"@ != "fedistantlight"@) by { assert("fefunca"@.len() != "fedistantlight"@.len()); }
        assert("fefunca"@ != "fedropshadow"@) by { assert("fefunca"@.len() != "fedropshadow"@.len()); }
        assert("fefunca"@ != "feflood"@) by { assert("fefunca"@[3] != "feflood"@[3]); }
    }
    assert(lower("feFuncA"@) =~= "fefunca"@);
}

proof fn tag_case_18()
    ensures
        svg_tag_case(lower("feFuncB"@)) == "feFuncB"@,
{
    reveal_strlit("feFuncB");
    reveal_strlit("altglyph");
    reveal_strlit("altglyphdef");
    reveal_strlit("altglyphitem");
    reveal_strlit("animatecolor");
    reveal_strlit("animatemotion");
    reveal_strlit("animatetransform");
    reveal_strlit("clippath");
    reveal_strlit("feblend");
    reveal_strlit("fecolormatrix");
    reveal_strlit("fecomponenttransfer");
    reveal_strlit("fecomposite");
    reveal_strlit("feconvolvematrix");
    reveal_strlit("fediffuselighting");
    reveal_strlit("fedisplacementmap");
    reveal_strlit("fedistantlight");
    reveal_strlit("fedropshadow");
    reveal_strlit("feflood");
    reveal_strlit("fefunca");
    reveal_strlit("fefuncb");
    assert(svg_tag_case("fefuncb"@) == "feFuncB"@) by {
        assert("fefuncb"@ != "altglyph"@) by { assert("fefuncb"@.len() != "altglyph"@.len()); }
        assert("fefuncb"@ != "altglyphdef"@) by { assert("fefuncb"@.len() != "altglyphdef"@.len()); }
        assert("fefuncb"@ != "altglyphitem"@) by { assert("fefuncb"@.len() != "altglyphitem"@.len()); }
        assert("fefuncb"@ != "animatecolor"@) by { assert("fefuncb"@.len() != "animatecolor"@.len()); }
        assert("fefuncb"@ != "animatemotion"@) by { assert("fefuncb"@.len() != "animatemotion"@.len()); }
        assert("fefuncb"@ != "animatetransform"@) by { assert("fefuncb"@.len() != "animatetransform"@.len()); }
        assert("fefuncb"@ != "clippath"@) by { assert("fefuncb"@.len() != "clippath"@.len()); }
        assert("fefuncb"@ != "feblend"@) by { assert("fefuncb"@[2] != "feblend"@[2]); }
        assert("fefuncb"@ != "fecolormatrix"@) by { assert("fefuncb"@.len() != "fecolormatrix"@.len()); }
        assert("fefuncb"@ != "fecomponenttransfer"@) by { assert("fefuncb"@.len() != "fecomponenttransfer"@.len()); }
        assert("fefuncb"@ != "fecomposite"@) by { assert("fefuncb"@.len() != "fecomposite"@.len()); }
        assert("fefuncb"@ != "feconvolvematrix"@) by { assert("fefuncb"@.len() != "feconvolvematrix"@.len()); }
        assert("fefuncb"@ != "fediffuselighting"@) by { assert("fefuncb"@.len() != "fediffuselighting"@.len()); }
        assert("fefuncb"@ != "fedisplacementmap"@) by { assert("fefuncb"@.len() != "fedisplacementmap"@.len()); }
        assert("fefuncb"@ != "fedistantlight"@) by { assert("fefuncb"@.len() != "fedistantlight"@.len()); }
        assert("fefuncb"@ != "fedropshadow"@) by { assert("fefuncb"@.len() != "fedropshadow"@.len()); }
        assert("fefuncb"@ != "feflood"@) by { assert("fefuncb"@[3] != "feflood"@[3]); }
        assert("fefuncb"@ != "fefunca"@) by { assert("fefuncb"@[6] != "fefunca"@[6]); }
    }
    assert(lower("feFuncB"@) =~= "fefuncb"@);
}

proof fn tag_case_19()
    ensures
        svg_tag_case(lower("feFuncG"@)) == "feFuncG"@,
{
    reveal_strlit("feFuncG");
    reveal_strlit("altglyph");
    reveal_strlit("altglyphdef");
    reveal_strlit("altglyphitem");
    reveal_strlit("animatecolor");
    reveal_strlit("animatemotion");
    reveal_strlit("animatetransform");
    reveal_strlit("clippath");
    reveal_strlit("feblend");
    reveal_strlit("fecolormatrix");
    reveal_strlit("fecomponenttransfer");
    reveal_strlit("fecomposite");
    reveal_strlit("feconvolvematrix");
    reveal_strlit("fediffuselighting");
    reveal_strlit("fedisplacementmap");
    reveal_strlit("fedistantlight");
    reveal_strlit("fedropshadow");
    reveal_strlit("feflood");
    reveal_strlit("fefunca");
    reveal_strlit("fefuncb");
    reveal_strlit("fefuncg");
    assert(svg_tag_case("fefuncg"@) == "feFuncG"@) by {
        assert("fefuncg"@ != "altglyph"@) by { assert("fefuncg"@.len() != "altglyph"@.len()); }
        assert("fefuncg"@ != "altglyphdef"@) by { assert("fefuncg"@.len() != "altglyphdef"@.len()); }
        assert("fefuncg"@ != "altglyphitem"@) by { assert("fefuncg"@.len() != "altglyphitem"@.len()); }
        assert("fefuncg"@ != "animatecolor"@) by { assert("fefuncg"@.len() != "animatecolor"@.len()); }
        assert("fefuncg"@ != "animatemotion"@) by { assert("fefuncg"@.len() != "animatemotion"@.len()); }
        assert("fefuncg"@ != "animatetransform"@) by { assert("fefuncg"@.len() != "animatetransform"@.len()); }
        assert("fefuncg"@ != "clippath"@) by { assert("fefuncg"@.len() != "clippath"@.len()); }
        assert("fefuncg"@ != "feblend"@) by { assert("fefuncg"@[2] != "feblend"@[2]); }
        assert("fefuncg"@ != "fecolormatrix"@) by { assert("fefuncg"@.len() != "fecolormatrix"@.len()); }
        assert("fefuncg"@ != "fecomponenttransfer"@) by { assert("fefuncg"@.len() != "fecomponenttransfer"@.len()); }
        assert("fefuncg"@ != "fecomposite"@) by { assert("fefuncg"@.len() != "fecomposite"@.len()); }
        assert("fefuncg"@ != "feconvolvematrix"@) by { assert("fefuncg"@.len() != "feconvolvematrix"@.len()); }
        assert("fefuncg"@ != "fediffuselighting"@) by { assert("fefuncg"@.len() != "fediffuselighting"@.len()); }
        assert("fefuncg"@ != "fedisplacementmap"@) by { assert("fefuncg"@.len() != "fedisplacementmap"@.len()); }
        assert("fefuncg"@ != "fedistantlight"@) by { assert("fefuncg"@.len() != "fedistantlight"@.len()); }
        assert("fefuncg"@ != "fedropshadow"@) by { assert("fefuncg"@.len() != "fedropshadow"@.len()); }
        assert("fefuncg"@ != "feflood"@) by { assert("fefuncg"@[3] != "feflood"@[3]); }
        assert("fefuncg"@ != "fefunca"@) by { assert("fefuncg"@[6] != "fefunca"@[6]); }
        assert("fefuncg"@ != "fefuncb"@) by { assert("fefuncg"@[6] != "fefuncb"@[6]); }
    }
    assert(lower("feFuncG"@) =~= "fefuncg"@);
}

proof fn tag_case_20()
    ensures
        svg_tag_case(lower("feFuncR"@)) == "feFuncR"@,
{
    reveal_strlit("feFuncR");
    reveal_strlit("altglyph");
    reveal_strlit("altglyphdef");
    reveal_strlit("altglyphitem");
    reveal_strlit("animatecolor");
    reveal_strlit("animatemotion");
    reveal_strlit("animatetransform");
    reveal_strlit("clippath");
    reveal_strlit("feblend");
    reveal_strlit("fecolormatrix");
    reveal_strlit("fecomponenttransfer");
    reveal_strlit("fecomposite");
    reveal_strlit("feconvolvematrix");
    reveal_strlit("fediffuselighting");
    reveal_strlit("fedisplacementmap");
    reveal_strlit("fedistantlight");
    reveal_strlit("fedropshadow");
    reveal_strlit("feflood");
    reveal_strlit("fefunca");
    reveal_strlit("fefuncb");
    reveal_strlit("fefuncg");
    reveal_strlit("fefuncr");
    assert(svg_tag_case("fefuncr"@) == "feFuncR"@) by {
        assert("fefuncr"@ != "altglyph"@) by { assert("fefuncr"@.len() != "altglyph"@.len()); }
        assert("fefuncr"@ != "altglyphdef"@) by { assert("fefuncr"@.len() != "altglyphdef"@.len()); }
        assert("fefuncr"@ != "altglyphitem"@) by { assert("fefuncr"@.len() != "altglyphitem"@.len()); }
        assert("fefuncr"@ != "animatecolor"@) by { assert("fefuncr"@.len() != "animatecolor"@.len()); }
        assert("fefuncr"@ != "animatemotion"@) by { assert("fefuncr"@.len() != "animatemotion"@.len()); }
        assert("fefuncr"@ != "animatetransform"@) by { assert("fefuncr"@.len() != "animatetransform"@.len()); }
        assert("fefuncr"@ != "clippath"@) by { assert("fefuncr"@.len() != "clippath"@.len()); }
        assert("fefuncr"@ != "feblend"@) by { assert("fefuncr"@[2] != "feblend"@[2]); }
        assert("fefuncr"@ != "fecolormatrix"@) by { assert("fefuncr"@.len() != "fecolormatrix"@.len()); }
        assert("fefuncr"@ != "fecomponenttransfer"@) by { assert("fefuncr"@.len() != "fecomponenttransfer"@.len()); }
        assert("fefuncr"@ != "fecomposite"@) by { assert("fefuncr"@.len() != "fecomposite"@.len()); }
        assert("fefuncr"@ != "feconvolvematrix"@) by { assert("fefuncr"@.len() != "feconvolvematrix"@.len()); }
        assert("fefuncr"@ != "fediffuselighting"@) by { assert("fefuncr"@.len() != "fediffuselighting"@.len()); }
        assert("fefuncr"@ != "fedisplacementmap"@) by { assert("fefuncr"@.len() != "fedisplacementmap"@.len()); }
        assert("fefuncr"@ != "fedistantlight"@) by { assert("fefuncr"@.len() != "fedistantlight"@.len()); }
        assert("fefuncr"@ != "fedropshadow"@) by { assert("fefuncr"@.len() != "fedropshadow"@.len()); }
        assert("fefuncr"@ != "feflood"@) by { assert("fefuncr"@[3] != "feflood"@[3]); }
        assert("fefuncr"@ != "fefunca"@) by { assert("fefuncr"@[6] != "fefunca"@[6]); }
        assert("fefuncr"@ != "fefuncb"@) by { assert("fefuncr"@[6] != "fefuncb"@[6]); }
        assert("fefuncr"@ != "fefuncg"@) by { assert("fefuncr"@[6] != "fefuncg"@[6]); }
    }
    assert(lower("feFuncR"@) =~= "fefuncr"@);
}

proof fn tag_case_21()
    ensures
        svg_tag_case(lower("feGaussianBlur"@)) == "feGaussianBlur"@,
{
    reveal_strlit("feGaussianBlur");
    reveal_strlit("altglyph");
    reveal_strlit("altglyphdef");
    reveal_strlit("altglyphitem");
    reveal_strlit("animatecolor");
    reveal_strlit("animatemotion");
    reveal_strlit("animatetransform");
    reveal_strlit("clippath");
    reveal_strlit("feblend");
    reveal_strlit("fecolormatrix");
    reveal_strlit("fecomponenttransfer");
    reveal_strlit("fecomposite");
    reveal_strlit("feconvolvematrix");
    reveal_strlit("fediffuselighting");
    reveal_strlit("fedisplacementmap");
    reveal_strlit("fedistantlight");
    reveal_strlit("fedropshadow");
    reveal_strlit("feflood");
    reveal_strlit("fefunca");
    reveal_strlit("fefuncb");
    reveal_strlit("fefuncg");
    reveal_strlit("fefuncr");
    reveal_strlit("fegaussianblur");
    assert(svg_tag_case("fegaussianblur"@) == "feGaussianBlur"@) by {
        assert("fegaussianblur"@ != "altglyph"@) by { assert("fegaussianblur"@.len() != "altglyph"@.len()); }
        assert("fegaussianblur"@ != "altglyphdef"@) by { assert("fegaussianblur"@.len() != "altglyphdef"@.len()); }
        assert("fegaussianblur"@ != "altglyphitem"@) by { assert("fegaussianblur"@.len() != "altglyphitem"@.len()); }
        assert("fegaussianblur"@ != "animatecolor"@) by { assert("fegaussianblur"@.len() != "animatecolor"@.len()); }
        assert("fegaussianblur"@ != "animatemotion"@) by { assert("fegaussianblur"@.len() != "animatemotion"@.len()); }
        assert("fegaussianblur"@ != "animatetransform"@) by { assert("fegaussianblur"@.len() != "animatetransform"@.len()); }
        assert("fegaussianblur"@ != "clippath"@) by { assert("fegaussianblur"@.len() != "clippath"@.len()); }
        assert("fegaussianblur"@ != "feblend"@) by { assert("fegaussianblur"@.len() != "feblend"@.len()); }
        assert("fegaussianblur"@ != "fecolormatrix"@) by { assert("fegaussianblur"@.len() != "fecolormatrix"@.len()); }
        assert("fegaussianblur"@ != "fecomponenttransfer"@) by { assert("fegaussianblur"@.len() != "fecomponenttransfer"@.len()); }
        assert("fegaussianblur"@ != "fecomposite"@) by { assert("fegaussianblur"@.len() != "fecomposite"@.len()); }
        assert("fegaussianblur"@ != "feconvolvematrix"@) by { assert("fegaussianblur"@.len() != "feconvolvematrix"@.len()); }
        assert("fegaussianblur"@ != "fediffuselighting"@) by { assert("fegaussianblur"@.len() != "fediffuselighting"@.len()); }
        assert("fegaussianblur"@ != "fedisplacementmap"@) by { assert("fegaussianblur"@.len() != "fedisplacementmap"@.len()); }
        assert("fegaussianblur"@ != "fedistantlight"@) by { assert("fegaussianblur"@[2] != "fedistantlight"@[2]); }
        assert("fegaussianblur"@ != "fedropshadow"@) by { assert("fegaussianblur"@.len() != "fedropshadow"@.len()); }
        assert("fegaussianblur"@ != "feflood"@) by { assert("fegaussianblur"@.len() != "feflood"@.len()); }
        assert("fegaussianblur"@ != "fefunca"@) by { assert("fegaussianblur"@.len() != "fefunca"@.len()); }
        assert("fegaussianblur"@ != "fefuncb"@) by { assert("fegaussianblur"@.len() != "fefuncb"@.len()); }
        assert("fegaussianblur"@ != "fefuncg"@) by { assert("fegaussianblur"@.len() != "fefuncg"@.len()); }
        assert("fegaussianblur"@ != "fefuncr"@) by { assert("fegaussianblur"@.len() != "fefuncr"@.len()); }
    }
    assert(lower("feGaussianBlur"@) =~= "fegaussianblur"@);
}

proof fn tag_case_22()
    ensures
        svg_tag_case(lower("feImage"@)) == "feImage"@,
{
    reveal_strlit("feImage");
    reveal_strlit("altglyph");
    reveal_strlit("altglyphdef");
    reveal_strlit("altglyphitem");
    reveal_strlit("animatecolor");
    reveal_strlit("animatemotion");
    reveal_strlit("animatetransform");
    reveal_strlit("clippath");
    reveal_strlit("feblend");
    reveal_strlit("fecolormatrix");
    reveal_strlit("fecomponenttransfer");
    reveal_strlit("fecomposite");
    reveal_strlit("feconvolvematrix");
    reveal_strlit("fediffuselighting");
    reveal_strlit("fedisplacementmap");
    reveal_strlit("fedistantlight");
    reveal_strlit("fedropshadow");
    reveal_strlit("feflood");
    reveal_strlit("fefunca");
    reveal_strlit("fefuncb");
    reveal_strlit("fefuncg");
    reveal_strlit("fefuncr");
    reveal_strlit("fegaussianblur");
    reveal_strlit("feimage");
    assert(svg_tag_case("feimage"@) == "feImage"@) by {
        assert("feimage"@ != "altglyph"@) by { assert("feimage"@.len() != "altglyph"@.len()); }
        assert("feimage"@ != "altglyphdef"@) by { assert("feimage"@.len() != "altglyphdef"@.len()); }
        assert("feimage"@ != "altglyphitem"@) by { assert("feimage"@.len() != "altglyphitem"@.len()); }
        assert("feimage"@ != "animatecolor"@) by { assert("feimage"@.len() != "animatecolor"@.len()); }
        assert("feimage"@ != "animatemotion"@) by { assert("feimage"@.len() != "animatemotion"@.len()); }
        assert("feimage"@ != "animatetransform"@) by { assert("feimage"@.len() != "animatetransform"@.len()); }
        assert("feimage"@ != "clippath"@) by { assert("feimage"@.len() != "clippath"@.len()); }
        assert("feimage"@ != "feblend"@) by { assert("feimage"@[2] != "feblend"@[2]); }
        assert("feimage"@ != "fecolormatrix"@) by { assert("feimage"@.len() != "fecolormatrix"@.len()); }
        assert("feimage"@ != "fecomponenttransfer"@) by { assert("feimage"@.len() != "fecomponenttransfer"@.len()); }
        assert("feimage"@ != "fecomposite"@) by { assert("feimage"@.len() != "fecomposite"@.len()); }
        assert("feimage"@ != "feconvolvematrix"@) by { assert("feimage"@.len() != "feconvolvematrix"@.len()); }
        assert("feimage"@ != "fediffuselighting"@) by { assert("feimage"@.len() != "fediffuselighting"@.len()); }
        assert("feimage"@ != "fedisplacementmap"@) by { assert("feimage"@.len() != "fedisplacementmap"@.len()); }
        assert("feimage"@ != "fedistantlight"@) by { assert("feimage"@.len() != "fedistantlight"@.len()); }
        assert("feimage"@ != "fedropshadow"@) by { assert("feimage"@.len() != "fedropshadow"@.len()); }
        assert("feimage"@ != "feflood"@) by { assert("feimage"@[2] != "feflood"@[2]); }
        assert("feimage"@ != "fefunca"@) by { assert("feimage"@[2] != "fefunca"@[2]); }
        assert("feimage"@ != "fefuncb"@) by { assert("feimage"@[2] != "fefuncb"@[2]); }
        assert("feimage"@ != "fefuncg"@) by { assert("feimage"@[2] != "fefuncg"@[2]); }
        assert("feimage"@ != "fefuncr"@) by { assert("feimage"@[2] != "fefuncr"@[2]); }
        assert("feimage"@ != "fegaussianblur"@) by { assert("feimage"@.len() != "fegaussianblur"@.len()); }
    }
    assert(lower("feImage"@) =~= "feimage"@);
}

proof fn tag_case_23()
    ensures
        svg_tag_case(lower("feMerge"@)) == "feMerge"@,
{
    reveal_strlit("feMerge");
    reveal_strlit("altglyph");
    reveal_strlit("altglyphdef");
    reveal_strlit("altglyphitem");
    reveal_strlit("animatecolor");
    reveal_strlit("animatemotion");
    reveal_strlit("animatetransform");
    reveal_strlit("clippath");
    reveal_strlit("feblend");
    reveal_strlit("fecolormatrix");
    reveal_strlit("fecomponenttransfer");
    reveal_strlit("fecomposite");
    reveal_strlit("feconvolvematrix");
    reveal_strlit("fediffuselighting");
    reveal_strlit("fedisplacementmap");
    reveal_strlit("fedistantlight");
    reveal_strlit("fedropshadow");
    reveal_strlit("feflood");
    reveal_strlit("fefunca");
    reveal_strlit("fefuncb");
    reveal_strlit("fefuncg");
    reveal_strlit("fefuncr");
    reveal_strlit("fegaussianblur");
    reveal_strlit("feimage");
    reveal_strlit("femerge");
    assert(svg_tag_case("femerge"@) == "feMerge"@) by {
        assert("femerge"@ != "altglyph"@) by { assert("femerge"@.len() != "altglyph"@.len()); }
        assert("femerge"@ != "altglyphdef"@) by { assert("femerge"@.len() != "altglyphdef"@.len()); }
        assert("femerge"@ != "altglyphitem"@) by { assert("femerge"@.len() != "altglyphitem"@.len()); }
        assert("femerge"@ != "animatecolor"@) by { assert("femerge"@.len() != "animatecolor"@.len()); }
        assert("femerge"@ != "animatemotion"@) by { assert("femerge"@.len() != "animatemotion"@.len()); }
        assert("femerge"@ != "animatetransform"@) by { assert("femerge"@.len() != "animatetransform"@.len()); }
        assert("femerge"@ != "clippath"@) by { assert("femerge"@.len() != "clippath"@.len()); }
        assert("femerge"@ != "feblend"@) by { assert("femerge"@[2] != "feblend"@[2]); }
        assert("femerge"@ != "fecolormatrix"@) by { assert("femerge"@.len() != "fecolormatrix"@.len()); }
        assert("femerge"@ != "fecomponenttransfer"@) by { assert("femerge"@.len() != "fecomponenttransfer"@.len()); }
        assert("femerge"@ != "fecomposite"@) by { assert("femerge"@.len() != "fecomposite"@.len()); }
        assert("femerge"@ != "feconvolvematrix"@) by { assert("femerge"@.len() != "feconvolvematrix"@.len()); }
        assert("femerge"@ != "fediffuselighting"@) by { assert("femerge"@.len() != "fediffuselighting"@.len()); }
        assert("femerge"@ != "fedisplacementmap"@) by { assert("femerge"@.len() != "fedisplacementmap"@.len()); }
        assert("femerge"@ != "fedistantlight"@) by { assert("femerge"@.len() != "fedistantlight"@.len()); }
        assert("femerge"@ != "fedropshadow"@) by { assert("femerge"@.len() != "fedropshadow"@.len()); }
        assert("femerge"@ != "feflood"@) by { assert("femerge"@[2] != "feflood"@[2]); }
        assert("femerge"@ != "fefunca"@) by { assert("femerge"@[2] != "fefunca"@[2]); }
        assert("femerge"@ != "fefuncb"@) by { assert("femerge"@[2] != "fefuncb"@[2]); }
        assert("femerge"@ != "fefuncg"@) by { assert("femerge"@[2] != "fefuncg"@[2]); }
        assert("femerge"@ != "fefuncr"@) by { assert("femerge"@[2] != "fefuncr"@[2]); }
        assert("femerge"@ != "fegaussianblur"@) by { assert("femerge"@.len() != "fegaussianblur"@.len()); }
        assert("femerge"@ != "feimage"@) by { assert("femerge"@[2] != "feimage"@[2]); }
    }
    assert(lower("feMerge"@) =~= "femerge"@);
}

proof fn tag_case_24()
    ensures
        svg_tag_case(lower("feMergeNode"@)) == "feMergeNode"@,
{
    reveal_strlit("feMergeNode");
    reveal_strlit("altglyph");
    reveal_strlit("altglyphdef");
    reveal_strlit("altglyphitem");
    reveal_strlit("animatecolor");
    reveal_strlit("animatemotion");
    reveal_strlit("animatetransform");
    reveal_strlit("clippath");
    reveal_strlit("feblend");
    reveal_strlit("fecolormatrix");
    reveal_strlit("fecomponenttransfer");
    reveal_strlit("fecomposite");
    reveal_strlit("feconvolvematrix");
    reveal_strlit("fediffuselighting");
    reveal_strlit("fedisplacementmap");
    reveal_strlit("fedistantlight");
    reveal_strlit("fedropshadow");
    reveal_strlit("feflood");
    reveal_strlit("fefunca");
    reveal_strlit("fefuncb");
    reveal_strlit("fefuncg");
    reveal_strlit("fefuncr");
    reveal_strlit("fegaussianblur");
    reveal_strlit("feimage");
    reveal_strlit("femerge");
    reveal_strlit("femergenode");
    assert(svg_tag_case("femergenode"@) == "feMergeNode"@) by {
        assert("femergenode"@ != "altglyph"@) by { assert("femergenode"@.len() != "altglyph"@.len()); }
        assert("femergenode"@ != "altglyphdef"@) by { assert("femergenode"@[0] != "altglyphdef"@[0]); }
        assert("femergenode"@ != "altglyphitem"@) by { assert("femergenode"@.len() != "altglyphitem"@.len()); }
        assert("femergenode"@ != "animatecolor"@) by { assert("femergenode"@.len() != "animatecolor"@.len()); }
        assert("femergenode"@ != "animatemotion"@) by { assert("femergenode"@.len() != "animatemotion"@.len()); }
        assert("femergenode"@ != "animatetransform"@) by { assert("femergenode"@.len() != "animatetransform"@.len()); }
        assert("femergenode"@ != "clippath"@) by { assert("femergenode"@.len() != "clippath"@.len()); }
        assert("femergenode"@ != "feblend"@) by { assert("femergenode"@.len() != "feblend"@.len()); }
        assert("femergenode"@ != "fecolormatrix"@) by { assert("femergenode"@.len() != "fecolormatrix"@.len()); }
        assert("femergenode"@ != "fecomponenttransfer"@) by { assert("femergenode"@.len() != "fecomponenttransfer"@.len()); }
        assert("femergenode"@ != "fecomposite"@) by { assert("femergenode"@[2] != "fecomposite"@[2]); }
        assert("femergenode"@ != "feconvolvematrix"@) by { assert("femergenode"@.len() != "feconvolvematrix"@.len()); }
        assert("femergenode"@ != "fediffuselighting"@) by { assert("femergenode"@.len() != "fediffuselighting"@.len()); }
        assert("femergenode"@ != "fedisplacementmap"@) by { assert("femergenode"@.len() != "fedisplacementmap"@.len()); }
        assert("femergenode"@ != "fedistantlight"@) by { assert("femergenode"@.len() != "fedistantlight"@.len()); }
        assert("femergenode"@ != "fedropshadow"@) by { assert("femergenode"@.len() != "fedropshadow"@.len()); }
        assert("femergenode"@ != "feflood"@) by { assert("femergenode"@.len() != "feflood"@.len()); }
        assert("femergenode"@ != "fefunca"@) by { assert("femergenode"@.len() != "fefunca"@.len()); }
        assert("femergenode"@ != "fefuncb"@) by { assert("femergenode"@.len() != "fefuncb"@.len()); }
        assert("femergenode"@ != "fefuncg"@) by { assert("femergenode"@.len() != "fefuncg"@.len()); }
        assert("femergenode"@ != "fefuncr"@) by { assert("femergenode"@.len() != "fefuncr"@.len()); }
        assert("femergenode"@ != "fegaussianblur"@) by { assert("femergenode"@.len() != "fegaussianblur"@.len()); }
        assert("femergenode"@ != "feimage"@) by { assert("femergenode"@.len() != "feimage"@.len()); }
        assert("femergenode"@ != "femerge"@) by { assert("femergenode"@.len() != "femerge"@.len()); }
    }
    assert(lower("feMergeNode"@) =~= "femergenode"@);
}

proof fn tag_case_25()
    ensures
        svg_tag_case(lower("feMorphology"@)) == "feMorphology"@,
{
    reveal_strlit("feMorphology");
    reveal_strlit("altglyph");
    reveal_strlit("altglyphdef");
    reveal_strlit("altglyphitem");
    reveal_strlit("animatecolor");
    reveal_strlit("animatemotion");
    reveal_strlit("animatetransform");
    reveal_strlit("clippath");
    reveal_strlit("feblend");
    reveal_strlit("fecolormatrix");
    reveal_strlit("fecomponenttransfer");
    reveal_strlit("fecomposite");
    reveal_strlit("feconvolvematrix");
    reveal_strlit("fediffuselighting");
    reveal_strlit("fedisplacementmap");
    reveal_strlit("fedistantlight");
    reveal_strlit("fedropshadow");
    reveal_strlit("feflood");
    reveal_strlit("fefunca");
    reveal_strlit("fefuncb");
    reveal_strlit("fefuncg");
    reveal_strlit("fefuncr");
    reveal_strlit("fegaussianblur");
    reveal_strlit("feimage");
    reveal_strlit("femerge");
    reveal_strlit("femergenode");
    reveal_strlit("femorphology");
    assert(svg_tag_case("femorphology"@) == "feMorphology"@) by {
        assert("femorphology"@ != "altglyph"@) by { assert("femorphology"@.len() != "altglyph"@.len()); }
        assert("femorphology"@ != "altglyphdef"@) by { assert("femorphology"@.len() != "altglyphdef"@.len()); }
        assert("femorphology"@ != "altglyphitem"@) by { assert("femorphology"@[0] != "altglyphitem"@[0]); }
        assert("femorphology"@ != "animatecolor"@) by { assert("femorphology"@[0] != "animatecolor"@[0]); }
        assert("femorphology"@ != "animatemotion"@) by { assert("femorphology"@.len() != "animatemotion"@.len()); }
        assert("femorphology"@ != "animatetransform"@) by { assert("femorphology"@.len() != "animatetransform"@.len()); }
        assert("femorphology"@ != "clippath"@) by { assert("femorphology"@.len() != "clippath"@.len()); }
        assert("femorphology"@ != "feblend"@) by { assert("femorphology"@.len() != "feblend"@.len()); }
        assert("femorphology"@ != "fecolormatrix"@) by { assert("femorphology"@.len() != "fecolormatrix"@.len()); }
        assert("femorphology"@ != "fecomponenttransfer"@) by { assert("femorphology"@.len() != "fecomponenttransfer"@.len()); }
        assert("femorphology"@ != "fecomposite"@) by { assert("femorphology"@.len() != "fecomposite"@.len()); }
        assert("femorphology"@ != "feconvolvematrix"@) by { assert("femorphology"@.len() != "feconvolvematrix"@.len()); }
        assert("femorphology"@ != "fediffuselighting"@) by { assert("femorphology"@.len() != "fediffuselighting"@.len()); }
        assert("femorphology"@ != "fedisplacementmap"@) by { assert("femorphology"@.len() != "fedisplacementmap"@.len()); }
        assert("femorphology"@ != "fedistantlight"@) by { assert("femorphology"@.len() != "fedistantlight"@.len()); }
        assert("femorphology"@ != "fedropshadow"@) by { assert("femorphology"@[2] != "fedropshadow"@[2]); }
        assert("femorphology"@ != "feflood"@) by { assert("femorphology"@.len() != "feflood"@.len()); }
        assert("femorphology"@ != "fefunca"@) by { assert("femorphology"@.len() != "fefunca"@.len()); }
        assert("femorphology"@ != "fefuncb"@) by { assert("femorphology"@.len() != "fefuncb"@.len()); }
        assert("femorphology"@ != "fefuncg"@) by { assert("femorphology"@.len() != "fefuncg"@.len()); }
        assert("femorphology"@ != "fefuncr"@) by { assert("femorphology"@.len() != "fefuncr"@.len()); }
        assert("femorphology"@ != "fegaussianblur"@) by { assert("femorphology"@.len() != "fegaussianblur"@.len()); }
        assert("femorphology"@ != "feimage"@) by { assert("femorphology"@.len() != "feimage"@.len()); }
        assert("femorphology"@ != "femerge"@) by { assert("femorphology"@.len() != "femerge"@.len()); }
        assert("femorphology"@ != "femergenode"@) by { assert("femorphology"@.len() != "femergenode"@.len()); }
    }
    assert(lower("feMorphology"@) =~= "femorphology"@);
}

proof fn tag_case_26()
    ensures
        svg_tag_case(lower("feOffset"@)) == "feOffset"@,
{
    reveal_strlit("feOffset");
    reveal_strlit("altglyph");
    reveal_strlit("altglyphdef");
    reveal_strlit("altglyphitem");
    reveal_strlit("animatecolor");
    reveal_strlit("animatemotion");
    reveal_strlit("animatetransform");
    reveal_strlit("clippath");
    reveal_strlit("feblend");
    reveal_strlit("fecolormatrix");
    reveal_strlit("fecomponenttransfer");
    reveal_strlit("fecomposite");
    reveal_strlit("feconvolvematrix");
    reveal_strlit("fediffuselighting");
    reveal_strlit("fedisplacementmap");
    reveal_strlit("fedistantlight");
    reveal_strlit("fedropshadow");
    reveal_strlit("feflood");
    reveal_strlit("fefunca");
    reveal_strlit("fefuncb");
    reveal_strlit("fefuncg");
    reveal_strlit("fefuncr");
    reveal_strlit("fegaussianblur");
    reveal_strlit("feimage");
    reveal_strlit("femerge");
    reveal_strlit("femergenode");
    reveal_strlit("femorphology");
    reveal_strlit("feoffset");
    assert(svg_tag_case("feoffset"@) == "feOffset"@) by {
        assert("feoffset"@ != "altglyph"@) by { assert("feoffset"@[0] != "altglyph"@[0]); }
        assert("feoffset"@ != "altglyphdef"@) by { assert("feoffset"@.len() != "altglyphdef"@.len()); }
        assert("feoffset"@ != "altglyphitem"@) by { assert("feoffset"@.len() != "altglyphitem"@.len()); }
        assert("feoffset"@ != "animatecolor"@) by { assert("feoffset"@.len() != "animatecolor"@.len()); }
        assert("feoffset"@ != "animatemotion"@) by { assert("feoffset"@.len() != "animatemotion"@.len()); }
        assert("feoffset"@ != "animatetransform"@) by { assert("feoffset"@.len() != "animatetransform"@.len()); }
        assert("feoffset"@ != "clippath"@) by { assert("feoffset"@[0] != "clippath"@[0]); }
        assert("feoffset"@ != "feblend"@) by { assert("feoffset"@.len() != "feblend"@.len()); }
        assert("feoffset"@ != "fecolormatrix"@) by { assert("feoffset"@.len() != "fecolormatrix"@.len()); }
        assert("feoffset"@ != "fecomponenttransfer"@) by { assert("feoffset"@.len() != "fecomponenttransfer"@.len()); }
        assert("feoffset"@ != "fecomposite"@) by { assert("feoffset"@.len() != "fecomposite"@.len()); }
        assert("feoffset"@ != "feconvolvematrix"@) by { assert("feoffset"@.len() != "feconvolvematrix"@.len()); }
        assert("feoffset"@ != "fediffuselighting"@) by { assert("feoffset"@.len() != "fediffuselighting"@.len()); }
        assert("feoffset"@ != "fedisplacementmap"@) by { assert("feoffset"@.len() != "fedisplacementmap"@.len()); }
        assert("feoffset"@ != "fedistantlight"@) by { assert("feoffset"@.len() != "fedistantlight"@.len()); }
        assert("feoffset"@ != "fedropshadow"@) by { assert("feoffset"@.len() != "fedropshadow"@.len()); }
        assert("feoffset"@ != "feflood"@) by { assert("feoffset"@.len() != "feflood"@.len()); }
        assert("feoffset"@ != "fefunca"@) by { assert("feoffset"@.len() != "fefunca"@.len()); }
        assert("feoffset"@ != "fefuncb"@) by { assert("feoffset"@.len() != "fefuncb"@.len()); }
        assert("feoffset"@ != "fefuncg"@) by { assert("feoffset"@.len() != "fefuncg"@.len()); }
        assert("feoffset"@ != "fefuncr"@) by { assert("feoffset"@.len() != "fefuncr"@.len()); }
        assert("feoffset"@ != "fegaussianblur"@) by { assert("feoffset"@.len() != "fegaussianblur"@.len()); }
        assert("feoffset"@ != "feimage"@) by { assert("feoffset"@.len() != "feimage"@.len()); }
        assert("feoffset"@ != "femerge"@) by { assert("feoffset"@.len() != "femerge"@.len()); }
        assert("feoffset"@ != "femergenode"@) by { assert("feoffset"@.len() != "femergenode"@.len()); }
        assert("feoffset"@ != "femorphology"@) by { assert("feoffset"@.len() != "femorphology"@.len()); }
    }
    assert(lower("feOffset"@) =~= "feoffset"@);
}

proof fn tag_case_27()
    ensures
        svg_tag_case(lower("fePointLight"@)) == "fePointLight"@,
{
    reveal_strlit("fePointLight");
    reveal_strlit("altglyph");
    reveal_strlit("altglyphdef");
    reveal_strlit("altglyphitem");
    reveal_strlit("animatecolor");
    reveal_strlit("animatemotion");
    reveal_strlit("animatetransform");
    reveal_strlit("clippath");
    reveal_strlit("feblend");
    reveal_strlit("fecolormatrix");
    reveal_strlit("fecomponenttransfer");
    reveal_strlit("fecomposite");
    reveal_strlit("feconvolvematrix");
    reveal_strlit("fediffuselighting");
    reveal_strlit("fedisplacementmap");
    reveal_strlit("fedistantlight");
    reveal_strlit("fedropshadow");
    reveal_strlit("feflood");
    reveal_strlit("fefunca");
    reveal_strlit("fefuncb");
    reveal_strlit("fefuncg");
    reveal_strlit("fefuncr");
    reveal_strlit("fegaussianblur");
    reveal_strlit("feimage");
    reveal_strlit("femerge");
    reveal_strlit("femergenode");
    reveal_strlit("femorphology");
    reveal_strlit("feoffset");
    reveal_strlit("fepointlight");
    assert(svg_tag_case("fepointlight"@) == "fePointLight"@) by {
        assert("fepointlight"@ != "altglyph"@) by { assert("fepointlight"@.len() != "altglyph"@.len()); }
        assert("fepointlight"@ != "altglyphdef"@) by { assert("fepointlight"@.len() != "altglyphdef"@.len()); }
        assert("fepointlight"@ != "altglyphitem"@) by { assert("fepointlight"@[0] != "altglyphitem"@[0]); }
        assert("fepointlight"@ != "animatecolor"@) by { assert("fepointlight"@[0] != "animatecolor"@[0]); }
        assert("fepointlight"@ != "animatemotion"@) by { assert("fepointlight"@.len() != "animatemotion"@.len()); }
        assert("fepointlight"@ != "animatetransform"@) by { assert("fepointlight"@.len() != "animatetransform"@.len()); }
        assert("fepointlight"@ != "clippath"@) by { assert("fepointlight"@.len() != "clippath"@.len()); }
        assert("fepointlight"@ != "feblend"@) by { assert("fepointlight"@.len() != "feblend"@.len()); }
        assert("fepointlight"@ != "fecolormatrix"@) by { assert("fepointlight"@.len() != "fecolormatrix"@.len()); }
        assert("fepointlight"@ != "fecomponenttransfer"@) by { assert("fepointlight"@.len() != "fecomponenttransfer"@.len()); }
        assert("fepointlight"@ != "fecomposite"@) by { assert("fepointlight"@.len() != "fecomposite"@.len()); }
        assert("fepointlight"@ != "feconvolvematrix"@) by { assert("fepointlight"@.len() != "feconvolvematrix"@.len()); }
        assert("fepointlight"@ != "fediffuselighting"@) by { assert("fepointlight"@.len() != "fediffuselighting"@.len()); }
        assert("fepointlight"@ != "fedisplacementmap"@) by { assert("fepointlight"@.len() != "fedisplacementmap"@.len()); }
        assert("fepointlight"@ != "fedistantlight"@) by { assert("fepointlight"@.len() != "fedistantlight"@.len()); }
        assert("fepointlight"@ != "fedropshadow"@) by { assert("fepointlight"@[2] != "fedropshadow"@[2]); }
        assert("fepointlight"@ != "feflood"@) by { assert("fepointlight"@.len() != "feflood"@.len()); }
        assert("fepointlight"@ != "fefunca"@) by { assert("fepointlight"@.len() != "fefunca"@.len()); }
        assert("fepointlight"@ != "fefuncb"@) by { assert("fepointlight"@.len() != "fefuncb"@.len()); }
        assert("fepointlight"@ != "fefuncg"@) by { assert("fepointlight"@.len() != "fefuncg"@.len()); }
        assert("fepointlight"@ != "fefuncr"@) by { assert("fepointlight"@.len() != "fefuncr"@.len()); }
        assert("fepointlight"@ != "fegaussianblur"@) by { assert("fepointlight"@.len() != "fegaussianblur"@.len()); }
        assert("fepointlight"@ != "feimage"@) by { assert("fepointlight"@.len() != "feimage"@.len()); }
        assert("fepointlight"@ != "femerge"@) by { assert("fepointlight"@.len() != "femerge"@.len()); }
        assert("fepointlight"@ != "femergenode"@) by { assert("fepointlight"@.len() != "femergenode"@.len()); }
        assert("fepointlight"@ != "femorphology"@) by { assert("fepointlight"@[2] != "femorphology"@[2]); }
        assert("fepointlight"@ != "feoffset"@) by { assert("fepointlight"@.len() != "feoffset"@.len()); }
    }
    assert(lower("fePointLight"@) =~= "fepointlight"@);
}

proof fn tag_case_28()
    ensures
        svg_tag_case(lower("feSpecularLighting"@)) == "feSpecularLighting"@,
{
    reveal_strlit("feSpecularLighting");
    reveal_strlit("altglyph");
    reveal_strlit("altglyphdef");
    reveal_strlit("altglyphitem");
    reveal_strlit("animatecolor");
    reveal_strlit("animatemotion");
    reveal_strlit("animatetransform");
    reveal_strlit("clippath");
    reveal_strlit("feblend");
    reveal_strlit("fecolormatrix");
    reveal_strlit("fecomponenttransfer");
    reveal_strlit("fecomposite");
    reveal_strlit("feconvolvematrix");
    reveal_strlit("fediffuselighting");
    reveal_strlit("fedisplacementmap");
    reveal_strlit("fedistantlight");
    reveal_strlit("fedropshadow");
    reveal_strlit("feflood");
    reveal_strlit("fefunca");
    reveal_strlit("fefuncb");
    reveal_strlit("fefuncg");
    reveal_strlit("fefuncr");
    reveal_strlit("fegaussianblur");
    reveal_strlit("feimage");
    reveal_strlit("femerge");
    reveal_strlit("femergenode");
    reveal_strlit("femorphology");
    reveal_strlit("feoffset");
    reveal_strlit("fepointlight");
    reveal_strlit("fespecularlighting");
    assert(svg_tag_case("fespecularlighting"@) == "feSpecularLighting"@) by {
        assert("fespecularlighting"@ != "altglyph"@) by { assert("fespecularlighting"@.len() != "altglyph"@.len()); }
        assert("fespecularlighting"@ != "altglyphdef"@) by { assert("fespecularlighting"@.len() != "altglyphdef"@.len()); }
        assert("fespecularlighting"@ != "altglyphitem"@) by { assert("fespecularlighting"@.len() != "altglyphitem"@.len()); }
        assert("fespecularlighting"@ != "animatecolor"@) by { assert("fespecularlighting"@.len() != "animatecolor"@.len()); }
        assert("fespecularlighting"@ != "animatemotion"@) by { assert("fespecularlighting"@.len() != "animatemotion"@.len()); }
        assert("fespecularlighting"@ != "animatetransform"@) by { assert("fespecularlighting"@.len() != "animatetransform"@.len()); }
        assert("fespecularlighting"@ != "clippath"@) by { assert("fespecularlighting"@.len() != "clippath"@.len()); }
        assert("fespecularlighting"@ != "feblend"@) by { assert("fespecularlighting"@.len() != "feblend"@.len()); }
        assert("fespecularlighting"@ != "fecolormatrix"@) by { assert("fespecularlighting"@.len() != "fecolormatrix"@.len()); }
        assert("fespecularlighting"@ != "fecomponenttransfer"@) by { assert("fespecularlighting"@.len() != "fecomponenttransfer"@.len()); }
        assert("fespecularlighting"@ != "fecomposite"@) by { assert("fespecularlighting"@.len() != "fecomposite"@.len()); }
        assert("fespecularlighting"@ != "feconvolvematrix"@) by { assert("fespecularlighting"@.len() != "feconvolvematrix"@.len()); }
        assert("fespecularlighting"@ != "fediffuselighting"@) by { assert("fespecularlighting"@.len() != "fediffuselighting"@.len()); }
        assert("fespecularlighting"@ != "fedisplacementmap"@) by { assert("fespecularlighting"@.len() != "fedisplacementmap"@.len()); }
        assert("fespecularlighting"@ != "fedistantlight"@) by { assert("fespecularlighting"@.len() != "fedistantlight"@.len()); }
        assert("fespecularlighting"@ != "fedropshadow"@) by { assert("fespecularlighting"@.len() != "fedropshadow"@.len()); }
        assert("fespecularlighting"@ != "feflood"@) by { assert("fespecularlighting"@.len() != "feflood"@.len()); }
        assert("fespecularlighting"@ != "fefunca"@) by { assert("fespecularlighting"@.len() != "fefunca"@.len()); }
        assert("fespecularlighting"@ != "fefuncb"@) by { assert("fespecularlighting"@.len() != "fefuncb"@.len()); }
        assert("fespecularlighting"@ != "fefuncg"@) by { assert("fespecularlighting"@.len() != "fefuncg"@.len()); }
        assert("fespecularlighting"@ != "fefuncr"@) by { assert("fespecularlighting"@.len() != "fefuncr"@.len()); }
        assert("fespecularlighting"@ != "fegaussianblur"@) by { assert("fespecularlighting"@.len() != "fegaussianblur"@.len()); }
        assert("fespecularlighting"@ != "feimage"@) by { assert("fespecularlighting"@.len() != "feimage"@.len()); }
        assert("fespecularlighting"@ != "femerge"@) by { assert("fespecularlighting"@.len() != "femerge"@.len()); }
        assert("fespecularlighting"@ != "femergenode"@) by { assert("fespecularlighting"@.len() != "femergenode"@.len()); }
        assert("fespecularlighting"@ != "femorphology"@) by { assert("fespecularlighting"@.len() != "femorphology"@.len()); }
        assert("fespecularlighting"@ != "feoffset"@) by { assert("fespecularlighting"@.len() != "feoffset"@.len()); }
        assert("fespecularlighting"@ != "fepointlight"@) by { assert("fespecularlighting"@.len() != "fepointlight"@.len()); }
    }
    assert(lower("feSpecularLighting"@) =~= "fespecularlighting"@);
}

proof fn tag_case_29()
    ensures
        svg_tag_case(lower("feSpotLight"@)) == "feSpotLight"@,
{
    reveal_strlit("feSpotLight");
    reveal_strlit("altglyph");
    reveal_strlit("altglyphdef");
    reveal_strlit("altglyphitem");
    reveal_strlit("animatecolor");
    reveal_strlit("animatemotion");
    reveal_strlit("animatetransform");
    reveal_strlit("clippath");
    reveal_strlit("feblend");
    reveal_strlit("fecolormatrix");
    reveal_strlit("fecomponenttransfer");
    reveal_strlit("fecomposite");
    reveal_strlit("feconvolvematrix");
    reveal_strlit("fediffuselighting");
    reveal_strlit("fedisplacementmap");
    reveal_strlit("fedistantlight");
    reveal_strlit("fedropshadow");
    reveal_strlit("feflood");
    reveal_strlit("fefunca");
    reveal_strlit("fefuncb");
    reveal_strlit("fefuncg");
    reveal_strlit("fefuncr");
    reveal_strlit("fegaussianblur");
    reveal_strlit("feimage");
    reveal_strlit("femerge");
    reveal_strlit("femergenode");
    reveal_strlit("femorphology");
    reveal_strlit("feoffset");
    reveal_strlit("fepointlight");
    reveal_strlit("fespecularlighting");
    reveal_strlit("fespotlight");
    assert(svg_tag_case("fespotlight"@) == "feSpotLight"@) by {
        assert("fespotlight"@ != "altglyph"@) by { assert("fespotlight"@.len() != "altglyph"@.len()); }
        assert("fespotlight"@ != "altglyphdef"@) by { assert("fespotlight"@[0] != "altglyphdef"@[0]); }
        assert("fespotlight"@ != "altglyphitem"@) by { assert("fespotlight"@.len() != "altglyphitem"@.len()); }
        assert("fespotlight"@ != "animatecolor"@) by { assert("fespotlight"@.len() != "animatecolor"@.len()); }
        assert("fespotlight"@ != "animatemotion"@) by { assert("fespotlight"@.len() != "animatemotion"@.len()); }
        assert("fespotlight"@ != "animatetransform"@) by { assert("fespotlight"@.len() != "animatetransform"@.len()); }
        assert("fespotlight"@ != "clippath"@) by { assert("fespotlight"@.len() != "clippath"@.len()); }
        assert("fespotlight"@ != "feblend"@) by { assert("fespotlight"@.len() != "feblend"@.len()); }
        assert("fespotlight"@ != "fecolormatrix"@) by { assert("fespotlight"@.len() != "fecolormatrix"@.len()); }
        assert("fespotlight"@ != "fecomponenttransfer"@) by { assert("fespotlight"@.len() != "fecomponenttransfer"@.len()); }
        assert("fespotlight"@ != "fecomposite"@) by { assert("fespotlight"@[2] != "fecomposite"@[2]); }
        assert("fespotlight"@ != "feconvolvematrix"@) by { assert("fespotlight"@.len() != "feconvolvematrix"@.len()); }
        assert("fespotlight"@ != "fediffuselighting"@) by { assert("fespotlight"@.len() != "fediffuselighting"@.len()); }
        assert("fespotlight"@ != "fedisplacementmap"@) by { assert("fespotlight"@.len() != "fedisplacementmap"@.len()); }
        assert("fespotlight"@ != "fedistantlight"@) by { assert("fespotlight"@.len() != "fedistantlight"@.len()); }
        assert("fespotlight"@ != "fedropshadow"@) by { assert("fespotlight"@.len() != "fedropshadow"@.len()); }
        assert("fespotlight"@ != "feflood"@) by { assert("fespotlight"@.len() != "feflood"@.len()); }
        assert("fespotlight"@ != "fefunca"@) by { assert("fespotlight"@.len() != "fefunca"@.len()); }
        assert("fespotlight"@ != "fefuncb"@) by { assert("fespotlight"@.len() != "fefuncb"@.len()); }
        assert("fespotlight"@ != "fefuncg"@) by { assert("fespotlight"@.len() != "fefuncg"@.len()); }
        assert("fespotlight"@ != "fefuncr"@) by { assert("fespotlight"@.len() != "fefuncr"@.len()); }
        assert("fespotlight"@ != "fegaussianblur"@) by { assert("fespotlight"@.len() != "fegaussianblur"@.len()); }
        assert("fespotlight"@ != "feimage"@) by { assert("fespotlight"@.len() != "feimage"@.len()); }
        assert("fespotlight"@ != "femerge"@) by { assert("fespotlight"@.len() != "femerge"@.len()); }
        assert("fespotlight"@ != "femergenode"@) by { assert("fespotlight"@[2] != "femergenode"@[2]); }
        assert("fespotlight"@ != "femorphology"@) by { assert("fespotlight"@.len() != "femorphology"@.len()); }
        assert("fespotlight"@ != "feoffset"@) by { assert("fespotlight"@.len() != "feoffset"@.len()); }
        assert("fespotlight"@ != "fepointlight"@) by { assert("fespotlight"@.len() != "fepointlight"@.len()); }
        assert("fespotlight"@ != "fespecularlighting"@) by { assert("fespotlight"@.len() != "fespecularlighting"@.len()); }
    }
    assert(lower("feSpotLight"@) =~= "fespotlight"@);
}

proof fn tag_case_30()
    ensures
        svg_tag_case(lower("feTile"@)) == "feTile"@,
{
    reveal_strlit("feTile");
    reveal_strlit("altglyph");
    reveal_strlit("altglyphdef");
    reveal_strlit("altglyphitem");
    reveal_strlit("animatecolor");
    reveal_strlit("animatemotion");
    reveal_strlit("animatetransform");
    reveal_strlit("clippath");
    reveal_strlit("feblend");
    reveal_strlit("fecolormatrix");
    reveal_strlit("fecomponenttransfer");
    reveal_strlit("fecomposite");
    reveal_strlit("feconvolvematrix");
    reveal_strlit("fediffuselighting");
    reveal_strlit("fedisplacementmap");
    reveal_strlit("fedistantlight");
    reveal_strlit("fedropshadow");
    reveal_strlit("feflood");
    reveal_strlit("fefunca");
    reveal_strlit("fefuncb");
    reveal_strlit("fefuncg");
    reveal_strlit("fefuncr");
    reveal_strlit("fegaussianblur");
    reveal_strlit("feimage");
    reveal_strlit("femerge");
    reveal_strlit("femergenode");
    reveal_strlit("femorphology");
    reveal_strlit("feoffset");
    reveal_strlit("fepointlight");
    reveal_strlit("fespecularlighting");
    reveal_strlit("fespotlight");
    reveal_strlit("fetile");
    assert(svg_tag_case("fetile"@) == "feTile"@) by {
        assert("fetile"@ != "altglyph"@) by { assert("fetile"@.len() != "altglyph"@.len()); }
        assert("fetile"@ != "altglyphdef"@) by { assert("fetile"@.len() != "altglyphdef"@.len()); }
        assert("fetile"@ != "altglyphitem"@) by { assert("fetile"@.len() != "altglyphitem"@.len()); }
        assert("fetile"@ != "animatecolor"@) by { assert("fetile"@.len() != "animatecolor"@.len()); }
        assert("fetile"@ != "animatemotion"@) by { assert("fetile"@.len() != "animatemotion"@.len()); }
        assert("fetile"@ != "animatetransform"@) by { assert("fetile"@.len() != "animatetransform"@.len()); }
        assert("fetile"@ != "clippath"@) by { assert("fetile"@.len() != "clippath"@.len()); }
        assert("fetile"@ != "feblend"@) by { assert("fetile"@.len() != "feblend"@.len()); }
        assert("fetile"@ != "fecolormatrix"@) by { assert("fetile"@.len() != "fecolormatrix"@.len()); }
        assert("fetile"@ != "fecomponenttransfer"@) by { assert("fetile"@.len() != "fecomponenttransfer"@.len()); }
        assert("fetile"@ != "fecomposite"@) by { assert("fetile"@.len() != "fecomposite"@.len()); }
        assert("fetile"@ != "feconvolvematrix"@) by { assert("fetile"@.len() != "feconvolvematrix"@.len()); }
        assert("fetile"@ != "fediffuselighting"@) by { assert("fetile"@.len() != "fediffuselighting"@.len()); }
        assert("fetile"@ != "fedisplacementmap"@) by { assert("fetile"@.len() != "fedisplacementmap"@.len()); }
        assert("fetile"@ != "fedistantlight"@) by { assert("fetile"@.len() != "fedistantlight"@.len()); }
        assert("fetile"@ != "fedropshadow"@) by { assert("fetile"@.len() != "fedropshadow"@.len()); }
        assert("fetile"@ != "feflood"@) by { assert("fetile"@.len() != "feflood"@.len()); }
        assert("fetile"@ != "fefunca"@) by { assert("fetile"@.len() != "fefunca"@.len()); }
        assert("fetile"@ != "fefuncb"@) by { assert("fetile"@.len() != "fefuncb"@.len()); }
        assert("fetile"@ != "fefuncg"@) by { assert("fetile"@.len() != "fefuncg"@.len()); }
        assert("fetile"@ != "fefuncr"@) by { assert("fetile"@.len() != "fefuncr"@.len()); }
        assert("fetile"@ != "fegaussianblur"@) by { assert("fetile"@.len() != "fegaussianblur"@.len()); }
        assert("fetile"@ != "feimage"@) by { assert("fetile"@.len() != "feimage"@.len()); }
        assert("fetile"@ != "femerge"@) by { assert("fetile"@.len() != "femerge"@.len()); }
        assert("fetile"@ != "femergenode"@) by { assert("fetile"@.len() != "femergenode"@.len()); }
        assert("fetile"@ != "femorphology"@) by { assert("fetile"@.len() != "femorphology"@.len()); }
        assert("fetile"@ != "feoffset"@) by { assert("fetile"@.len() != "feoffset"@.len()); }
        assert("fetile"@ != "fepointlight"@) by { assert("fetile"@.len() != "fepointlight"@.len()); }
        assert("fetile"@ != "fespecularlighting"@) by { assert("fetile"@.len() != "fespecularlighting"@.len()); }
        assert("fetile"@ != "fespotlight"@) by { assert("fetile"@.len() != "fespotlight"@.len()); }
    }
    assert(lower("feTile"@) =~= "fetile"@);
}

proof fn tag_case_31()
    ensures
        svg_tag_case(lower("feTurbulence"@)) == "feTurbulence"@,
{
    reveal_strlit("feTurbulence");
    reveal_strlit("altglyph");
    reveal_strlit("altglyphdef");
    reveal_strlit("altglyphitem");
    reveal_strlit("animatecolor");
    reveal_strlit("animatemotion");
    reveal_strlit("animatetransform");
    reveal_strlit("clippath");
    reveal_strlit("feblend");
    reveal_strlit("fecolormatrix");
    reveal_strlit("fecomponenttransfer");
    reveal_strlit("fecomposite");
    reveal_strlit("feconvolvematrix");
    reveal_strlit("fediffuselighting");
    reveal_strlit("fedisplacementmap");
    reveal_strlit("fedistantlight");
    reveal_strlit("fedropshadow");
    reveal_strlit("feflood");
    reveal_strlit("fefunca");
    reveal_strlit("fefuncb");
    reveal_strlit("fefuncg");
    reveal_strlit("fefuncr");
    reveal_strlit("fegaussianblur");
    reveal_strlit("feimage");
    reveal_strlit("femerge");
    reveal_strlit("femergenode");
    reveal_strlit("femorphology");
    reveal_strlit("feoffset");
    reveal_strlit("fepointlight");
    reveal_strlit("fespecularlighting");
    reveal_strlit("fespotlight");
    reveal_strlit("fetile");
    reveal_strlit("feturbulence");
    assert(svg_tag_case("feturbulence"@) == "feTurbulence"@) by {
        assert("feturbulence"@ != "altglyph"@) by { assert("feturbulence"@.len() != "altglyph"@.len()); }
        assert("feturbulence"@ != "altglyphdef"@) by { assert("feturbulence"@.len() != "altglyphdef"@.len()); }
        assert("feturbulence"@ != "altglyphitem"@) by { assert("feturbulence"@[0] != "altglyphitem"@[0]); }
        assert("feturbulence"@ != "animatecolor"@) by { assert("feturbulence"@[0] != "animatecolor"@[0]); }
        assert("feturbulence"@ != "animatemotion"@) by { assert("feturbulence"@.len() != "animatemotion"@.len()); }
        assert("feturbulence"@ != "animatetransform"@) by { assert("feturbulence"@.len() != "animatetransform"@.len()); }
        assert("feturbulence"@ != "clippath"@) by { assert("feturbulence"@.len() != "clippath"@.len()); }
        assert("feturbulence"@ != "feblend"@) by { assert("feturbulence"@.len() != "feblend"@.len()); }
        assert("feturbulence"@ != "fecolormatrix"@) by { assert("feturbulence"@.len() != "fecolormatrix"@.len()); }
        assert("feturbulence"@ != "fecomponenttransfer"@) by { assert("feturbulence"@.len() != "fecomponenttransfer"@.len()); }
        assert("feturbulence"@ != "fecomposite"@) by { assert("feturbulence"@.len() != "fecomposite"@.len()); }
        assert("feturbulence"@ != "feconvolvematrix"@) by { assert("feturbulence"@.len() != "feconvolvematrix"@.len()); }
        assert("feturbulence"@ != "fediffuselighting"@) by { assert("feturbulence"@.len() != "fediffuselighting"@.len()); }
        assert("feturbulence"@ != "fedisplacementmap"@) by { assert("feturbulence"@.len() != "fedisplacementmap"@.len()); }
        assert("feturbulence"@ != "fedistantlight"@) by { assert("feturbulence"@.len() != "fedistantlight"@.len()); }
        assert("feturbulence"@ != "fedropshadow"@) by { assert("feturbulence"@[2] != "fedropshadow"@[2]); }
        assert("feturbulence"@ != "feflood"@) by { assert("feturbulence"@.len() != "feflood"@.len()); }
        assert("feturbulence"@ != "fefunca"@) by { assert("feturbulence"@.len() != "fefunca"@.len()); }
        assert("feturbulence"@ != "fefuncb"@) by { assert("feturbulence"@.len() != "fefuncb"@.len()); }
        assert("feturbulence"@ != "fefuncg"@) by { assert("feturbulence"@.len() != "fefuncg"@.len()); }
        assert("feturbulence"@ != "fefuncr"@) by { assert("feturbulence"@.len() != "fefuncr"@.len()); }
        assert("feturbulence"@ != "fegaussianblur"@) by { assert("feturbulence"@.len() != "fegaussianblur"@.len()); }
        assert("feturbulence"@ != "feimage"@) by { assert("feturbulence"@.len() != "feimage"@.len()); }
        assert("feturbulence"@ != "femerge"@) by { assert("feturbulence"@.len() != "femerge"@.len()); }
        assert("feturbulence"@ != "femergenode"@) by { assert("feturbulence"@.len() != "femergenode"@.len()); }
        assert("feturbulence"@ != "femorphology"@) by { assert("feturbulence"@[2] != "femorphology"@[2]); }
        assert("feturbulence"@ != "feoffset"@) by { assert("feturbulence"@.len() != "feoffset"@.len()); }
        assert("feturbulence"@ != "fepointlight"@) by { assert("feturbulence"@[2] != "fepointlight"@[2]); }
        assert("feturbulence"@ != "fespecularlighting"@) by { assert("feturbulence"@.len() != "fespecularlighting"@.len()); }
        assert("feturbulence"@ != "fespotlight"@) by { assert("feturbulence"@.len() != "fespotlight"@.len()); }
        assert("feturbulence"@ != "fetile"@) by { assert("feturbulence"@.len() != "fetile"@.len()); }
    }
    assert(lower("feTurbulence"@) =~= "feturbulence"@);
}

proof fn tag_case_32()
    ensures
        svg_tag_case(lower("foreignObject"@)) == "foreignObject"@,
{
    reveal_strlit("foreignObject");
    reveal_strlit("altglyph");
    reveal_strlit("altglyphdef");
    reveal_strlit("altglyphitem");
    reveal_strlit("animatecolor");
    reveal_strlit("animatemotion");
    reveal_strlit("animatetransform");
    reveal_strlit("clippath");
    reveal_strlit("feblend");
    reveal_strlit("fecolormatrix");
    reveal_strlit("fecomponenttransfer");
    reveal_strlit("fecomposite");
    reveal_strlit("feconvolvematrix");
    reveal_strlit("fediffuselighting");
    reveal_strlit("fedisplacementmap");
    reveal_strlit("fedistantlight");
    reveal_strlit("fedropshadow");
    reveal_strlit("feflood");
    reveal_strlit("fefunca");
    reveal_strlit("fefuncb");
    reveal_strlit("fefuncg");
    reveal_strlit("fefuncr");
    reveal_strlit("fegaussianblur");
    reveal_strlit("feimage");
    reveal_strlit("femerge");
    reveal_strlit("femergenode");
    reveal_strlit("femorphology");
    reveal_strlit("feoffset");
    reveal_strlit("fepointlight");
    reveal_strlit("fespecularlighting");
    reveal_strlit("fespotlight");
    reveal_strlit("fetile");
    reveal_strlit("feturbulence");
    reveal_strlit("foreignobject");
    assert(svg_tag_case("foreignobject"@) == "foreignObject"@) by {
        assert("foreignobject"@ != "altglyph"@) by { assert("foreignobject"@.len() != "altglyph"@.len()); }
        assert("foreignobject"@ != "altglyphdef"@) by { assert("foreignobject"@.len() != "altglyphdef"@.len()); }
        assert("foreignobject"@ != "altglyphitem"@) by { assert("foreignobject"@.len() != "altglyphitem"@.len()); }
        assert("foreignobject"@ != "animatecolor"@) by { assert("foreignobject"@.len() != "animatecolor"@.len()); }
        assert("foreignobject"@ != "animatemotion"@) by { assert("foreignobject"@[0] != "animatemotion"@[0]); }
        assert("foreignobject"@ != "animatetransform"@) by { assert("foreignobject"@.len() != "animatetransform"@.len()); }
        assert("foreignobject"@ != "clippath"@) by { assert("foreignobject"@.len() != "clippath"@.len()); }
        assert("foreignobject"@ != "feblend"@) by { assert("foreignobject"@.len() != "feblend"@.len()); }
        assert("foreignobject"@ != "fecolormatrix"@) by { assert("foreignobject"@[1] != "fecolormatrix"@[1]); }
        assert("foreignobject"@ != "fecomponenttransfer"@) by { assert("foreignobject"@.len() != "fecomponenttransfer"@.len()); }
        assert("foreignobject"@ != "fecomposite"@) by { assert("foreignobject"@.len() != "fecomposite"@.len()); }
        assert("foreignobject"@ != "feconvolvematrix"@) by { assert("foreignobject"@.len() != "feconvolvematrix"@.len()); }
        assert("foreignobject"@ != "fediffuselighting"@) by { assert("foreignobject"@.len() != "fediffuselighting"@.len()); }
        assert("foreignobject"@ != "fedisplacementmap"@) by { assert("foreignobject"@.len() != "fedisplacementmap"@.len()); }
        assert("foreignobject"@ != "fedistantlight"@) by { assert("foreignobject"@.len() != "fedistantlight"@.len()); }
        assert("foreignobject"@ != "fedropshadow"@) by { assert("foreignobject"@.len() != "fedropshadow"@.len()); }
        assert("foreignobject"@ != "feflood"@) by { assert("foreignobject"@.len() != "feflood"@.len()); }
        assert("foreignobject"@ != "fefunca"@) by { assert("foreignobject"@.len() != "fefunca"@.len()); }
        assert("foreignobject"@ != "fefuncb"@) by { assert("foreignobject"@.len() != "fefuncb"@.len()); }
        assert("foreignobject"@ != "fefuncg"@) by { assert("foreignobject"@.len() != "fefuncg"@.len()); }
        assert("foreignobject"@ != "fefuncr"@) by { assert("foreignobject"@.len() != "fefuncr"@.len()); }
        assert("foreignobject"@ != "fegaussianblur"@) by { assert("foreignobject"@.len() != "fegaussianblur"@.len()); }
        assert("foreignobject"@ != "feimage"@) by { assert("foreignobject"@.len() != "feimage"@.len()); }
        assert("foreignobject"@ != "femerge"@) by { assert("foreignobject"@.len() != "femerge"@.len()); }
        assert("foreignobject"@ != "femergenode"@) by { assert("foreignobject"@.len() != "femergenode"@.len()); }
        assert("foreignobject"@ != "femorphology"@) by { assert("foreignobject"@.len() != "femorphology"@.len()); }
        assert("foreignobject"@ != "feoffset"@) by { assert("foreignobject"@.len() != "feoffset"@.len()); }
        assert("foreignobject"@ != "fepointlight"@) by { assert("foreignobject"@.len() != "fepointlight"@.len()); }
        assert("foreignobject"@ != "fespecularlighting"@) by { assert("foreignobject"@.len() != "fespecularlighting"@.len()); }
        assert("foreignobject"@ != "fespotlight"@) by { assert("foreignobject"@.len() != "fespotlight"@.len()); }
        assert("foreignobject"@ != "fetile"@) by { assert("foreignobject"@.len() != "fetile"@.len()); }
        assert("foreignobject"@ != "feturbulence"@) by { assert("foreignobject"@.len() != "feturbulence"@.len()); }
    }
    assert(lower("foreignObject"@) =~= "foreignobject"@);
}

proof fn tag_case_33()
    ensures
        svg_tag_case(lower("glyphRef"@)) == "glyphRef"@,
{
    reveal_strlit("glyphRef");
    reveal_strlit("altglyph");
    reveal_strlit("altglyphdef");
    reveal_strlit("altglyphitem");
    reveal_strlit("animatecolor");
    reveal_strlit("animatemotion");
    reveal_strlit("animatetransform");
    reveal_strlit("clippath");
    reveal_strlit("feblend");
    reveal_strlit("fecolormatrix");
    reveal_strlit("fecomponenttransfer");
    reveal_strlit("fecomposite");
    reveal_strlit("feconvolvematrix");
    reveal_strlit("fediffuselighting");
    reveal_strlit("fedisplacementmap");
    reveal_strlit("fedistantlight");
    reveal_strlit("fedropshadow");
    reveal_strlit("feflood");
    reveal_strlit("fefunca");
    reveal_strlit("fefuncb");
    reveal_strlit("fefuncg");
    reveal_strlit("fefuncr");
    reveal_strlit("fegaussianblur");
    reveal_strlit("feimage");
    reveal_strlit("femerge");
    reveal_strlit("femergenode");
    reveal_strlit("femorphology");
    reveal_strlit("feoffset");
    reveal_strlit("fepointlight");
    reveal_strlit("fespecularlighting");
    reveal_strlit("fespotlight");
    reveal_strlit("fetile");
    reveal_strlit("feturbulence");
    reveal_strlit("foreignobject");
    reveal_strlit("glyphref");
    assert(svg_tag_case("glyphref"@) == "glyphRef"@) by {
        assert("glyphref"@ != "altglyph"@) by { assert("glyphref"@[0] != "altglyph"@[0]); }
        assert("glyphref"@ != "altglyphdef"@) by { assert("glyphref"@.len() != "altglyphdef"@.len()); }
        assert("glyphref"@ != "altglyphitem"@) by { assert("glyphref"@.len() != "altglyphitem"@.len()); }
        assert("glyphref"@ != "animatecolor"@) by { assert("glyphref"@.len() != "animatecolor"@.len()); }
        assert("glyphref"@ != "animatemotion"@) by { assert("glyphref"@.len() != "animatemotion"@.len()); }
        assert("glyphref"@ != "animatetransform"@) by { assert("glyphref"@.len() != "animatetransform"@.len()); }
        assert("glyphref"@ != "clippath"@) by { assert("glyphref"@[0] != "clippath"@[0]); }
        assert("glyphref"@ != "feblend"@) by { assert("glyphref"@.len() != "feblend"@.len()); }
        assert("glyphref"@ != "fecolormatrix"@) by { assert("glyphref"@.len() != "fecolormatrix"@.len()); }
        assert("glyphref"@ != "fecomponenttransfer"@) by { assert("glyphref"@.len() != "fecomponenttransfer"@.len()); }
        assert("glyphref"@ != "fecomposite"@) by { assert("glyphref"@.len() != "fecomposite"@.len()); }
        assert("glyphref"@ != "feconvolvematrix"@) by { assert("glyphref"@.len() != "feconvolvematrix"@.len()); }
        assert("glyphref"@ != "fediffuselighting"@) by { assert("glyphref"@.len() != "fediffuselighting"@.len()); }
        assert("glyphref"@ != "fedisplacementmap"@) by { assert("glyphref"@.len() != "fedisplacementmap"@.len()); }
        assert("glyphref"@ != "fedistantlight"@) by { assert("glyphref"@.len() != "fedistantlight"@.len()); }
        assert("glyphref"@ != "fedropshadow"@) by { assert("glyphref"@.len() != "fedropshadow"@.len()); }
        assert("glyphref"@ != "feflood"@) by { assert("glyphref"@.len() != "feflood"@.len()); }
        assert("glyphref"@ != "fefunca"@) by { assert("glyphref"@.len() != "fefunca"@.len()); }
        assert("glyphref"@ != "fefuncb"@) by { assert("glyphref"@.len() != "fefuncb"@.len()); }
        assert("glyphref"@ != "fefuncg"@) by { assert("glyphref"@.len() != "fefuncg"@.len()); }
        assert("glyphref"@ != "fefuncr"@) by { assert("glyphref"@.len() != "fefuncr"@.len()); }
        assert("glyphref"@ != "fegaussianblur"@) by { assert("glyphref"@.len() != "fegaussianblur"@.len()); }
        assert("glyphref"@ != "feimage"@) by { assert("glyphref"@.len() != "feimage"@.len()); }
        assert("glyphref"@ != "femerge"@) by { assert("glyphref"@.len() != "femerge"@.len()); }
        assert("glyphref"@ != "femergenode"@) by { assert("glyphref"@.len() != "femergenode"@.len()); }
        assert("glyphref"@ != "femorphology"@) by { assert("glyphref"@.len() != "femorphology"@.len()); }
        assert("glyphref"@ != "feoffset"@) by { assert("glyphref"@[0] != "feoffset"@[0]); }
        assert("glyphref"@ != "fepointlight"@) by { assert("glyphref"@.len() != "fepointlight"@.len()); }
        assert("glyphref"@ != "fespecularlighting"@) by { assert("glyphref"@.len() != "fespecularlighting"@.len()); }
        assert("glyphref"@ != "fespotlight"@) by { assert("glyphref"@.len() != "fespotlight"@.len()); }
        assert("glyphref"@ != "fetile"@) by { assert("glyphref"@.len() != "fetile"@.len()); }
        assert("glyphref"@ != "feturbulence"@) by { assert("glyphref"@.len() != "feturbulence"@.len()); }
        assert("glyphref"@ != "foreignobject"@) by { assert("glyphref"@.len() != "foreignobject"@.len()); }
    }
    assert(lower("glyphRef"@) =~= "glyphref"@);
}

proof fn tag_case_34()
    ensures
        svg_tag_case(lower("linearGradient"@)) == "linearGradient"@,
{
    reveal_strlit("linearGradient");
    reveal_strlit("altglyph");
    reveal_strlit("altglyphdef");
    reveal_strlit("altglyphitem");
    reveal_strlit("animatecolor");
    reveal_strlit("animatemotion");
    reveal_strlit("animatetransform");
    reveal_strlit("clippath");
    reveal_strlit("feblend");
    reveal_strlit("fecolormatrix");
    reveal_strlit("fecomponenttransfer");
    reveal_strlit("fecomposite");
    reveal_strlit("feconvolvematrix");
    reveal_strlit("fediffuselighting");
    reveal_strlit("fedisplacementmap");
    reveal_strlit("fedistantlight");
    reveal_strlit("fedropshadow");
    reveal_strlit("feflood");
    reveal_strlit("fefunca");
    reveal_strlit("fefuncb");
    reveal_strlit("fefuncg");
    reveal_strlit("fefuncr");
    reveal_strlit("fegaussianblur");
    reveal_strlit("feimage");
    reveal_strlit("femerge");
    reveal_strlit("femergenode");
    reveal_strlit("femorphology");
    reveal_strlit("feoffset");
    reveal_strlit("fepointlight");
    reveal_strlit("fespecularlighting");
    reveal_strlit("fespotlight");
    reveal_strlit("fetile");
    reveal_strlit("feturbulence");
    reveal_strlit("foreignobject");
    reveal_strlit("glyphref");
    reveal_strlit("lineargradient");
    assert(svg_tag_case("lineargradient"@) == "linearGradient"@) by {
        assert("lineargradient"@ != "altglyph"@) by { assert("lineargradient"@.len() != "altglyph"@.len()); }
        assert("lineargradient"@ != "altglyphdef"@) by { assert("lineargradient"@.len() != "altglyphdef"@.len()); }
        assert("lineargradient"@ != "altglyphitem"@) by { assert("lineargradient"@.len() != "altglyphitem"@.len()); }
        assert("lineargradient"@ != "animatecolor"@) by { assert("lineargradient"@.len() != "animatecolor"@.len()); }
        assert("lineargradient"@ != "animatemotion"@) by { assert("lineargradient"@.len() != "animatemotion"@.len()); }
        assert("lineargradient"@ != "animatetransform"@) by { assert("lineargradient"@.len() != "animatetransform"@.len()); }
        assert("lineargradient"@ != "clippath"@) by { assert("lineargradient"@.len() != "clippath"@.len()); }
        assert("lineargradient"@ != "feblend"@) by { assert("lineargradient"@.len() != "feblend"@.len()); }
        assert("lineargradient"@ != "fecolormatrix"@) by { assert("lineargradient"@.len() != "fecolormatrix"@.len()); }
        assert("lineargradient"@ != "fecomponenttransfer"@) by { assert("lineargradient"@.len() != "fecomponenttransfer"@.len()); }
        assert("lineargradient"@ != "fecomposite"@) by { assert("lineargradient"@.len() != "fecomposite"@.len()); }
        assert("lineargradient"@ != "feconvolvematrix"@) by { assert("lineargradient"@.len() != "feconvolvematrix"@.len()); }
        assert("lineargradient"@ != "fediffuselighting"@) by { assert("lineargradient"@.len() != "fediffuselighting"@.len()); }
        assert("lineargradient"@ != "fedisplacementmap"@) by { assert("lineargradient"@.len() != "fedisplacementmap"@.len()); }
        assert("lineargradient"@ != "fedistantlight"@) by { assert("lineargradient"@[0] != "fedistantlight"@[0]); }
        assert("lineargradient"@ != "fedropshadow"@) by { assert("lineargradient"@.len() != "fedropshadow"@.len()); }
        assert("lineargradient"@ != "feflood"@) by { assert("lineargradient"@.len() != "feflood"@.len()); }
        assert("lineargradient"@ != "fefunca"@) by { assert("lineargradient"@.len() != "fefunca"@.len()); }
        assert("lineargradient"@ != "fefuncb"@) by { assert("lineargradient"@.len() != "fefuncb"@.len()); }
        assert("lineargradient"@ != "fefuncg"@) by { assert("lineargradient"@.len() != "fefuncg"@.len()); }
        assert("lineargradient"@ != "fefuncr"@) by { assert("lineargradient"@.len() != "fefuncr"@.len()); }
        assert("lineargradient"@ != "fegaussianblur"@) by { assert("lineargradient"@[0] != "fegaussianblur"@[0]); }
        assert("lineargradient"@ != "feimage"@) by { assert("lineargradient"@.len() != "feimage"@.len()); }
        assert("lineargradient"@ != "femerge"@) by { assert("lineargradient"@.len() != "femerge"@.len()); }
        assert("lineargradient"@ != "femergenode"@) by { assert("lineargradient"@.len() != "femergenode"@.len()); }
        assert("lineargradient"@ != "femorphology"@) by { assert("lineargradient"@.len() != "femorphology"@.len()); }
        assert("lineargradient"@ != "feoffset"@) by { assert("lineargradient"@.len() != "feoffset"@.len()); }
        assert("lineargradient"@ != "fepointlight"@) by { assert("lineargradient"@.len() != "fepointlight"@.len()); }
        assert("lineargradient"@ != "fespecularlighting"@) by { assert("lineargradient"@.len() != "fespecularlighting"@.len()); }
        assert("lineargradient"@ != "fespotlight"@) by { assert("lineargradient"@.len() != "fespotlight"@.len()); }
        assert("lineargradient"@ != "fetile"@) by { assert("lineargradient"@.len() != "fetile"@.len()); }
        assert("lineargradient"@ != "feturbulence"@) by { assert("lineargradient"@.len() != "feturbulence"@.len()); }
        assert("lineargradient"@ != "foreignobject"@) by { assert("lineargradient"@.len() != "foreignobject"@.len()); }
        assert("lineargradient"@ != "glyphref"@) by { assert("lineargradient"@.len() != "glyphref"@.len()); }
    }
    assert(lower("linearGradient"@) =~= "lineargradient"@);
}

proof fn tag_case_35()
    ensures
        svg_tag_case(lower("radialGradient"@)) == "radialGradient"@,
{
    reveal_strlit("radialGradient");
    reveal_strlit("altglyph");
    reveal_strlit("altglyphdef");
    reveal_strlit("altglyphitem");
    reveal_strlit("animatecolor");
    reveal_strlit("animatemotion");
    reveal_strlit("animatetransform");
    reveal_strlit("clippath");
    reveal_strlit("feblend");
    reveal_strlit("fecolormatrix");
    reveal_strlit("fecomponenttransfer");
    reveal_strlit("fecomposite");
    reveal_strlit("feconvolvematrix");
    reveal_strlit("fediffuselighting");
    reveal_strlit("fedisplacementmap");
    reveal_strlit("fedistantlight");
    reveal_strlit("fedropshadow");
    reveal_strlit("feflood");
    reveal_strlit("fefunca");
    reveal_strlit("fefuncb");
    reveal_strlit("fefuncg");
    reveal_strlit("fefuncr");
    reveal_strlit("fegaussianblur");
    reveal_strlit("feimage");
    reveal_strlit("femerge");
    reveal_strlit("femergenode");
    reveal_strlit("femorphology");
    reveal_strlit("feoffset");
    reveal_strlit("fepointlight");
    reveal_strlit("fespecularlighting");
    reveal_strlit("fespotlight");
    reveal_strlit("fetile");
    reveal_strlit("feturbulence");
    reveal_strlit("foreignobject");
    reveal_strlit("glyphref");
    reveal_strlit("lineargradient");
    reveal_strlit("radialgradient");
    assert(svg_tag_case("radialgradient"@) == "radialGradient"@) by {
        assert("radialgradient"@ != "altglyph"@) by { assert("radialgradient"@.len() != "altglyph"@.len()); }
        assert("radialgradient"@ != "altglyphdef"@) by { assert("radialgradient"@.len() != "altglyphdef"@.len()); }
        assert("radialgradient"@ != "altglyphitem"@) by { assert("radialgradient"@.len() != "altglyphitem"@.len()); }
        assert("radialgradient"@ != "animatecolor"@) by { assert("radialgradient"@.len() != "animatecolor"@.len()); }
        assert("radialgradient"@ != "animatemotion"@) by { assert("radialgradient"@.len() != "animatemotion"@.len()); }
        assert("radialgradient"@ != "animatetransform"@) by { assert("radialgradient"@.len() != "animatetransform"@.len()); }
        assert("radialgradient"@ != "clippath"@) by { assert("radialgradient"@.len() != "clippath"@.len()); }
        assert("radialgradient"@ != "feblend"@) by { assert("radialgradient"@.len() != "feblend"@.len()); }
        assert("radialgradient"@ != "fecolormatrix"@) by { assert("radialgradient"@.len() != "fecolormatrix"@.len()); }
        assert("radialgradient"@ != "fecomponenttransfer"@) by { assert("radialgradient"@.len() != "fecomponenttransfer"@.len()); }
        assert("radialgradient"@ != "fecomposite"@) by { assert("radialgradient"@.len() != "fecomposite"@.len()); }
        assert("radialgradient"@ != "feconvolvematrix"@) by { assert("radialgradient"@.len() != "feconvolvematrix"@.len()); }
        assert("radialgradient"@ != "fediffuselighting"@) by { assert("radialgradient"@.len() != "fediffuselighting"@.len()); }
        assert("radialgradient"@ != "fedisplacementmap"@) by { assert("radialgradient"@.len() != "fedisplacementmap"@.len()); }
        assert("radialgradient"@ != "fedistantlight"@) by { assert("radialgradient"@[0] != "fedistantlight"@[0]); }
        assert("radialgradient"@ != "fedropshadow"@) by { assert("radialgradient"@.len() != "fedropshadow"@.len()); }
        assert("radialgradient"@ != "feflood"@) by { assert("radialgradient"@.len() != "feflood"@.len()); }
        assert("radialgradient"@ != "fefunca"@) by { assert("radialgradient"@.len() != "fefunca"@.len()); }
        assert("radialgradient"@ != "fefuncb"@) by { assert("radialgradient"@.len() != "fefuncb"@.len()); }
        assert("radialgradient"@ != "fefuncg"@) by { assert("radialgradient"@.len() != "fefuncg"@.len()); }
        assert("radialgradient"@ != "fefuncr"@) by { assert("radialgradient"@.len() != "fefuncr"@.len()); }
        assert("radialgradient"@ != "fegaussianblur"@) by { assert("radialgradient"@[0] != "fegaussianblur"@[0]); }
        assert("radialgradient"@ != "feimage"@) by { assert("radialgradient"@.len() != "feimage"@.len()); }
        assert("radialgradient"@ != "femerge"@) by { assert("radialgradient"@.len() != "femerge"@.len()); }
        assert("radialgradient"@ != "femergenode"@) by { assert("radialgradient"@.len() != "femergenode"@.len()); }
        assert("radialgradient"@ != "femorphology"@) by { assert("radialgradient"@.len() != "femorphology"@.len()); }
        assert("radialgradient"@ != "feoffset"@) by { assert("radialgradient"@.len() != "feoffset"@.len()); }
        assert("radialgradient"@ != "fepointlight"@) by { assert("radialgradient"@.len() != "fepointlight"@.len()); }
        assert("radialgradient"@ != "fespecularlighting"@) by { assert("radialgradient"@.len() != "fespecularlighting"@.len()); }
        assert("radialgradient"@ != "fespotlight"@) by { assert("radialgradient"@.len() != "fespotlight"@.len()); }
        assert("radialgradient"@ != "fetile"@) by { assert("radialgradient"@.len() != "fetile"@.len()); }
        assert("radialgradient"@ != "feturbulence"@) by { assert("radialgradient"@.len() != "feturbulence"@.len()); }
        assert("radialgradient"@ != "foreignobject"@) by { assert("radialgradient"@.len() != "foreignobject"@.len()); }
        assert("radialgradient"@ != "glyphref"@) by { assert("radialgradient"@.len() != "glyphref"@.len()); }
        assert("radialgradient"@ != "lineargradient"@) by { assert("radialgradient"@[0] != "lineargradient"@[0]); }
    }
    assert(lower("radialGradient"@) =~= "radialgradient"@);
}

proof fn tag_case_36()
    ensures
        svg_tag_case(lower("textPath"@)) == "textPath"@,
{
    reveal_strlit("textPath");
    reveal_strlit("altglyph");
    reveal_strlit("altglyphdef");
    reveal_strlit("altglyphitem");
    reveal_strlit("animatecolor");
    reveal_strlit("animatemotion");
    reveal_strlit("animatetransform");
    reveal_strlit("clippath");
    reveal_strlit("feblend");
    reveal_strlit("fecolormatrix");
    reveal_strlit("fecomponenttransfer");
    reveal_strlit("fecomposite");
    reveal_strlit("feconvolvematrix");
    reveal_strlit("fediffuselighting");
    reveal_strlit("fedisplacementmap");
    reveal_strlit("fedistantlight");
    reveal_strlit("fedropshadow");
    reveal_strlit("feflood");
    reveal_strlit("fefunca");
    reveal_strlit("fefuncb");
    reveal_strlit("fefuncg");
    reveal_strlit("fefuncr");
    reveal_strlit("fegaussianblur");
    reveal_strlit("feimage");
    reveal_strlit("femerge");
    reveal_strlit("femergenode");
    reveal_strlit("femorphology");
    reveal_strlit("feoffset");
    reveal_strlit("fepointlight");
    reveal_strlit("fespecularlighting");
    reveal_strlit("fespotlight");
    reveal_strlit("fetile");
    reveal_strlit("feturbulence");
    reveal_strlit("foreignobject");
    reveal_strlit("glyphref");
    reveal_strlit("lineargradient");
    reveal_strlit("radialgradient");
    reveal_strlit("textpath");
    assert(svg_tag_case("textpath"@) == "textPath"@) by {
        assert("textpath"@ != "altglyph"@) by { assert("textpath"@[0] != "altglyph"@[0]); }
        assert("textpath"@ != "altglyphdef"@) by { assert("textpath"@.len() != "altglyphdef"@.len()); }
        assert("textpath"@ != "altglyphitem"@) by { assert("textpath"@.len() != "altglyphitem"@.len()); }
        assert("textpath"@ != "animatecolor"@) by { assert("textpath"@.len() != "animatecolor"@.len()); }
        assert("textpath"@ != "animatemotion"@) by { assert("textpath"@.len() != "animatemotion"@.len()); }
        assert("textpath"@ != "animatetransform"@) by { assert("textpath"@.len() != "animatetransform"@.len()); }
        assert("textpath"@ != "clippath"@) by { assert("textpath"@[0] != "clippath"@[0]); }
        assert("textpath"@ != "feblend"@) by { assert("textpath"@.len() != "feblend"@.len()); }
        assert("textpath"@ != "fecolormatrix"@) by { assert("textpath"@.len() != "fecolormatrix"@.len()); }
        assert("textpath"@ != "fecomponenttransfer"@) by { assert("textpath"@.len() != "fecomponenttransfer"@.len()); }
        assert("textpath"@ != "fecomposite"@) by { assert("textpath"@.len() != "fecomposite"@.len()); }
        assert("textpath"@ != "feconvolvematrix"@) by { assert("textpath"@.len() != "feconvolvematrix"@.len()); }
        assert("textpath"@ != "fediffuselighting"@) by { assert("textpath"@.len() != "fediffuselighting"@.len()); }
        assert("textpath"@ != "fedisplacementmap"@) by { assert("textpath"@.len() != "fedisplacementmap"@.len()); }
        assert("textpath"@ != "fedistantlight"@) by { assert("textpath"@.len() != "fedistantlight"@.len()); }
        assert("textpath"@ != "fedropshadow"@) by { assert("textpath"@.len() != "fedropshadow"@.len()); }
        assert("textpath"@ != "feflood"@) by { assert("textpath"@.len() != "feflood"@.len()); }
        assert("textpath"@ != "fefunca"@) by { assert("textpath"@.len() != "fefunca"@.len()); }
        assert("textpath"@ != "fefuncb"@) by { assert("textpath"@.len() != "fefuncb"@.len()); }
        assert("textpath"@ != "fefuncg"@) by { assert("textpath"@.len() != "fefuncg"@.len()); }
        assert("textpath"@ != "fefuncr"@) by { assert("textpath"@.len() != "fefuncr"@.len()); }
        assert("textpath"@ != "fegaussianblur"@) by { assert("textpath"@.len() != "fegaussianblur"@.len()); }
        assert("textpath"@ != "feimage"@) by { assert("textpath"@.len() != "feimage"@.len()); }
        assert("textpath"@ != "femerge"@) by { assert("textpath"@.len() != "femerge"@.len()); }
        assert("textpath"@ != "femergenode"@) by { assert("textpath"@.len() != "femergenode"@.len()); }
        assert("textpath"@ != "femorphology"@) by { assert("textpath"@.len() != "femorphology"@.len()); }
        assert("textpath"@ != "feoffset"@) by { assert("textpath"@[0] != "feoffset"@[0]); }
        assert("textpath"@ != "fepointlight"@) by { assert("textpath"@.len() != "fepointlight"@.len()); }
        assert("textpath"@ != "fespecularlighting"@) by { assert("textpath"@.len() != "fespecularlighting"@.len()); }
        assert("textpath"@ != "fespotlight"@) by { assert("textpath"@.len() != "fespotlight"@.len()); }
        assert("textpath"@ != "fetile"@) by { assert("textpath"@.len() != "fetile"@.len()); }
        assert("textpath"@ != "feturbulence"@) by { assert("textpath"@.len() != "feturbulence"@.len()); }
        assert("textpath"@ != "foreignobject"@) by { assert("textpath"@.len() != "foreignobject"@.len()); }
        assert("textpath"@ != "glyphref"@) by { assert("textpath"@[0] != "glyphref"@[0]); }
        assert("textpath"@ != "lineargradient"@) by { assert("textpath"@.len() != "lineargradient"@.len()); }
        assert("textpath"@ != "radialgradient"@) by { assert("textpath"@.len() != "radialgradient"@.len()); }
    }
    assert(lower("textPath"@) =~= "textpath"@);
}

/// Every SVG element name that the HTML standard writes with capitals comes out with
/// them from its lowercase form, as it is stored.
pub proof fn lemma_svg_tags_keep_capitals()
    ensures
        forall|k: int| 0 <= k < svg_capital_tags().len()
            ==> svg_tag_case(lower(#[trigger] svg_capital_tags()[k])) == svg_capital_tags()[k],
{
    assert forall|k: int| 0 <= k < svg_capital_tags().len() implies svg_tag_case(lower(#[trigger] svg_capital_tags()[k])) == svg_capital_tags()[k] by {
        if k == 0 {
            tag_case_0();
        }
        if k == 1 {
            tag_case_1();
        }
        if k == 2 {
            tag_case_2();
        }
        if k == 3 {
            tag_case_3();
        }
        if k == 4 {
            tag_case_4();
        }
        if k == 5 {
            tag_case_5();
        }
        if k == 6 {
            tag_case_6();
        }
        if k == 7 {
            tag_case_7();
        }
        if k == 8 {
            tag_case_8();
        }
        if k == 9 {
            tag_case_9();
        }
        if k == 10 {
            tag_case_10();
        }
        if k == 11 {
            tag_case_11();
        }
        if k == 12 {
            tag_case_12();
        }
        if k == 13 {
            tag_case_13();
        }
        if k == 14 {
            tag_case_14();
        }
        if k == 15 {
            tag_case_15();
        }
        if k == 16 {
            tag_case_16();
        }
        if k == 17 {
            tag_case_17();
        }
        if k == 18 {
            tag_case_18();
        }
        if k == 19 {
            tag_case_19();
        }
        if k == 20 {
            tag_case_20();
        }
        if k == 21 {
            tag_case_21();
        }
        if k == 22 {
            tag_case_22();
        }
        if k == 23 {
            tag_case_23();
        }
        if k == 24 {
            tag_case_24();
        }
        if k == 25 {
            tag_case_25();
        }
        if k == 26 {
            tag_case_26();
        }
        if k == 27 {
            tag_case_27();
        }
        if k == 28 {
            tag_case_28();
        }
        if k == 29 {
            tag_case_29();
        }
        if k == 30 {
            tag_case_30();
        }
        if k == 31 {
            tag_case_31();
        }
        if k == 32 {
            tag_case_32();
        }
        if k == 33 {
            tag_case_33();
        }
        if k == 34 {
            tag_case_34();
        }
        if k == 35 {
            tag_case_35();
        }
        if k == 36 {
            tag_case_36();
        }
    }
}

/// The SVG attribute names that the HTML standard writes with capitals.
pub open spec fn svg_capital_attrs() -> Seq<Seq<char>> {
    seq![
        "attributeName"@,
        "attributeType"@,
        "baseFrequency"@,
        "baseProfile"@,
        "calcMode"@,
        "clipPathUnits"@,
        "diffuseConstant"@,
        "edgeMode"@,
        "filterUnits"@,
        "glyphRef"@,
        "gradientTransform"@,
        "gradientUnits"@,
        "kernelMatrix"@,
        "kernelUnitLength"@,
        "keyPoints"@,
        "keySplines"@,
        "keyTimes"@,
        "lengthAdjust"@,
        "limitingConeAngle"@,
        "markerHeight"@,
        "markerUnits"@,
        "markerWidth"@,
        "maskContentUnits"@,
        "maskUnits"@,
        "numOctaves"@,
        "pathLength"@,
        "patternContentUnits"@,
        "patternTransform"@,
        "patternUnits"@,
        "pointsAtX"@,
        "pointsAtY"@,
        "pointsAtZ"@,
        "preserveAlpha"@,
        "preserveAspectRatio"@,
        "primitiveUnits"@,
        "refX"@,
        "refY"@,
        "repeatCount"@,
        "repeatDur"@,
        "requiredExtensions"@,
        "requiredFeatures"@,
        "specularConstant"@,
        "specularExponent"@,
        "spreadMethod"@,
        "startOffset"@,
        "stdDeviation"@,
        "stitchTiles"@,
        "surfaceScale"@,
        "systemLanguage"@,
        "tableValues"@,
        "targetX"@,
        "targetY"@,
        "textLength"@,
        "viewBox"@,
        "viewTarget"@,
        "xChannelSelector"@,
        "yChannelSelector"@,
        "zoomAndPan"@,
    ]
}

proof fn attr_case_0()
    ensures
        svg_attr_case(lower("attributeName"@)) == "attributeName"@,
{
    reveal_strlit("attributeName");
    reveal_strlit("attributename");
    assert(svg_attr_case("attributename"@) == "attributeName"@) by {
    }
    assert(lower("attributeName"@) =~= "attributename"@);
}

proof fn attr_case_1()
    ensures
        svg_attr_case(lower("attributeType"@)) == "attributeType"@,
{
    reveal_strlit("attributeType");
    reveal_strlit("attributename");
    reveal_strlit("attributetype");
    assert(svg_attr_case("attributetype"@) == "attributeType"@) by {
        assert("attributetype"@ != "attributename"@) by { assert("attributetype"@[9] != "attributename"@[9]); }
    }
    assert(lower("attributeType"@) =~= "attributetype"@);
}

proof fn attr_case_2()
    ensures
        svg_attr_case(lower("baseFrequency"@)) == "baseFrequency"@,
{
    reveal_strlit("baseFrequency");
    reveal_strlit("attributename");
    reveal_strlit("attributetype");
    reveal_strlit("basefrequency");
    assert(svg_attr_case("basefrequency"@) == "baseFrequency"@) by {
        assert("basefrequency"@ != "attributename"@) by { assert("basefrequency"@[0] != "attributename"@[0]); }
        assert("basefrequency"@ != "attributetype"@) by { assert("basefrequency"@[0] != "attributetype"@[0]); }
    }
    assert(lower("baseFrequency"@) =~= "basefrequency"@);
}

proof fn attr_case_3()
    ensures
        svg_attr_case(lower("baseProfile"@)) == "baseProfile"@,
{
    reveal_strlit("baseProfile");
    reveal_strlit("attributename");
    reveal_strlit("attributetype");
    reveal_strlit("basefrequency");
    reveal_strlit("baseprofile");
    assert(svg_attr_case("baseprofile"@) == "baseProfile"@) by {
        assert("baseprofile"@ != "attributename"@) by { assert("baseprofile"@.len() != "attributename"@.len()); }
        assert("baseprofile"@ != "attributetype"@) by { assert("baseprofile"@.len() != "attributetype"@.len()); }
        assert("baseprofile"@ != "basefrequency"@) by { assert("baseprofile"@.len() != "basefrequency"@.len()); }
    }
    assert(lower("baseProfile"@) =~= "baseprofile"@);
}

proof fn attr_case_4()
    ensures
        svg_attr_case(lower("calcMode"@)) == "calcMode"@,
{
    reveal_strlit("calcMode");
    reveal_strlit("attributename");
    reveal_strlit("attributetype");
    reveal_strlit("basefrequency");
    reveal_strlit("baseprofile");
    reveal_strlit("calcmode");
    assert(svg_attr_case("calcmode"@) == "calcMode"@) by {
        assert("calcmode"@ != "attributename"@) by { assert("calcmode"@.len() != "attributename"@.len()); }
        assert("calcmode"@ != "attributetype"@) by { assert("calcmode"@.len() != "attributetype"@.len()); }
        assert("calcmode"@ != "basefrequency"@) by { assert("calcmode"@.len() != "basefrequency"@.len()); }
        assert("calcmode"@ != "baseprofile"@) by { assert("calcmode"@.len() != "baseprofile"@.len()); }
    }
    assert(lower("calcMode"@) =~= "calcmode"@);
}

proof fn attr_case_5()
    ensures
        svg_attr_case(lower("clipPathUnits"@)) == "clipPathUnits"@,
{
    reveal_strlit("clipPathUnits");
    reveal_strlit("attributename");
    reveal_strlit("attributetype");
    reveal_strlit("basefrequency");
    reveal_strlit("baseprofile");
    reveal_strlit("calcmode");
    reveal_strlit("clippathunits");
    assert(svg_attr_case("clippathunits"@) == "clipPathUnits"@) by {
        assert("clippathunits"@ != "attributename"@) by { assert("clippathunits"@[0] != "attributename"@[0]); }
        assert("clippathunits"@ != "attributetype"@) by { assert("clippathunits"@[0] != "attributetype"@[0]); }
        assert("clippathunits"@ != "basefrequency"@) by { assert("clippathunits"@[0] != "basefrequency"@[0]); }
        assert("clippathunits"@ != "baseprofile"@) by { assert("clippathunits"@.len() != "baseprofile"@.len()); }
        assert("clippathunits"@ != "calcmode"@) by { assert("clippathunits"@.len() != "calcmode"@.len()); }
    }
    assert(lower("clipPathUnits"@) =~= "clippathunits"@);
}

proof fn attr_case_6()
    ensures
        svg_attr_case(lower("diffuseConstant"@)) == "diffuseConstant"@,
{
    reveal_strlit("diffuseConstant");
    reveal_strlit("attributename");
    reveal_strlit("attributetype");
    reveal_strlit("basefrequency");
    reveal_strlit("baseprofile");
    reveal_strlit("calcmode");
    reveal_strlit("clippathunits");
    reveal_strlit("diffuseconstant");
    assert(svg_attr_case("diffuseconstant"@) == "diffuseConstant"@) by {
        assert("diffuseconstant"@ != "attributename"@) by { assert("diffuseconstant"@.len() != "attributename"@.len()); }
        assert("diffuseconstant"@ != "attributetype"@) by { assert("diffuseconstant"@.len() != "attributetype"@.len()); }
        assert("diffuseconstant"@ != "basefrequency"@) by { assert("diffuseconstant"@.len() != "basefrequency"@.len()); }
        assert("diffuseconstant"@ != "baseprofile"@) by { assert("diffuseconstant"@.len() != "baseprofile"@.len()); }
        assert("diffuseconstant"@ != "calcmode"@) by { assert("diffuseconstant"@.len() != "calcmode"@.len()); }
        assert("diffuseconstant"@ != "clippathunits"@) by { assert("diffuseconstant"@.len() != "clippathunits"@.len()); }
    }
    assert(lower("diffuseConstant"@) =~= "diffuseconstant"@);
}

proof fn attr_case_7()
    ensures
        svg_attr_case(lower("edgeMode"@)) == "edgeMode"@,
{
    reveal_strlit("edgeMode");
    reveal_strlit("attributename");
    reveal_strlit("attributetype");
    reveal_strlit("basefrequency");
    reveal_strlit("baseprofile");
    reveal_strlit("calcmode");
    reveal_strlit("clippathunits");
    reveal_strlit("diffuseconstant");
    reveal_strlit("edgemode");
    assert(svg_attr_case("edgemode"@) == "edgeMode"@) by {
        assert("edgemode"@ != "attributename"@) by { assert("edgemode"@.len() != "attributename"@.len()); }
        assert("edgemode"@ != "attributetype"@) by { assert("edgemode"@.len() != "attributetype"@.len()); }
        assert("edgemode"@ != "basefrequency"@) by { assert("edgemode"@.len() != "basefrequency"@.len()); }
        assert("edgemode"@ != "baseprofile"@) by { assert("edgemode"@.len() != "baseprofile"@.len()); }
        assert("edgemode"@ != "calcmode"@) by { assert("edgemode"@[0] != "calcmode"@[0]); }
        assert("edgemode"@ != "clippathunits"@) by { assert("edgemode"@.len() != "clippathunits"@.len()); }
        assert("edgemode"@ != "diffuseconstant"@) by { assert("edgemode"@.len() != "diffuseconstant"@.len()); }
    }
    assert(lower("edgeMode"@) =~= "edgemode"@);
}

proof fn attr_case_8()
    ensures
        svg_attr_case(lower("filterUnits"@)) == "filterUnits"@,
{
    reveal_strlit("filterUnits");
    reveal_strlit("attributename");
    reveal_strlit("attributetype");
    reveal_strlit("basefrequency");
    reveal_strlit("baseprofile");
    reveal_strlit("calcmode");
    reveal_strlit("clippathunits");
    reveal_strlit("diffuseconstant");
    reveal_strlit("edgemode");
    reveal_strlit("filterunits");
    assert(svg_attr_case("filterunits"@) == "filterUnits"@) by {
        assert("filterunits"@ != "attributename"@) by { assert("filterunits"@.len() != "attributename"@.len()); }
        assert("filterunits"@ != "attributetype"@) by { assert("filterunits"@.len() != "attributetype"@.len()); }
        assert("filterunits"@ != "basefrequency"@) by { assert("filterunits"@.len() != "basefrequency"@.len()); }
        assert("filterunits"@ != "baseprofile"@) by { assert("filterunits"@[0] != "baseprofile"@[0]); }
        assert("filterunits"@ != "calcmode"@) by { assert("filterunits"@.len() != "calcmode"@.len()); }
        assert("filterunits"@ != "clippathunits"@) by { assert("filterunits"@.len() != "clippathunits"@.len()); }
        assert("filterunits"@ != "diffuseconstant"@) by { assert("filterunits"@.len() != "diffuseconstant"@.len()); }
        assert("filterunits"@ != "edgemode"@) by { assert("filterunits"@.len() != "edgemode"@.len()); }
    }
    assert(lower("filterUnits"@) =~= "filterunits"@);
}

proof fn attr_case_9()
    ensures
        svg_attr_case(lower("glyphRef"@)) == "glyphRef"@,
{
    reveal_strlit("glyphRef");
    reveal_strlit("attributename");
    reveal_strlit("attributetype");
    reveal_strlit("basefrequency");
    reveal_strlit("baseprofile");
    reveal_strlit("calcmode");
    reveal_strlit("clippathunits");
    reveal_strlit("diffuseconstant");
    reveal_strlit("edgemode");
    reveal_strlit("filterunits");
    reveal_strlit("glyphref");
    assert(svg_attr_case("glyphref"@) == "glyphRef"@) by {
        assert("glyphref"@ != "attributename"@) by { assert("glyphref"@.len() != "attributename"@.len()); }
        assert("glyphref"@ != "attributetype"@) by { assert("glyphref"@.len() != "attributetype"@.len()); }
        assert("glyphref"@ != "basefrequency"@) by { assert("glyphref"@.len() != "basefrequency"@.len()); }
        assert("glyphref"@ != "baseprofile"@) by { assert("glyphref"@.len() != "baseprofile"@.len()); }
        assert("glyphref"@ != "calcmode"@) by { assert("glyphref"@[0] != "calcmode"@[0]); }
        assert("glyphref"@ != "clippathunits"@) by { assert("glyphref"@.len() != "clippathunits"@.len()); }
        assert("glyphref"@ != "diffuseconstant"@) by { assert("glyphref"@.len() != "diffuseconstant"@.len()); }
        assert("glyphref"@ != "edgemode"@) by { assert("glyphref"@[0] != "edgemode"@[0]); }
        assert("glyphref"@ != "filterunits"@) by { assert("glyphref"@.len() != "filterunits"@.len()); }
    }
    assert(lower("glyphRef"@) =~= "glyphref"@);
}

proof fn attr_case_10()
    ensures
        svg_attr_case(lower("gradientTransform"@)) == "gradientTransform"@,
{
    reveal_strlit("gradientTransform");
    reveal_strlit("attributename");
    reveal_strlit("attributetype");
    reveal_strlit("basefrequency");
    reveal_strlit("baseprofile");
    reveal_strlit("calcmode");
    reveal_strlit("clippathunits");
    reveal_strlit("diffuseconstant");
    reveal_strlit("edgemode");
    reveal_strlit("filterunits");
    reveal_strlit("glyphref");
    reveal_strlit("gradienttransform");
    assert(svg_attr_case("gradienttransform"@) == "gradientTransform"@) by {
        assert("gradienttransform"@ != "attributename"@) by { assert("gradienttransform"@.len() != "attributename"@.len()); }
        assert("gradienttransform"@ != "attributetype"@) by { assert("gradienttransform"@.len() != "attributetype"@.len()); }
        assert("gradienttransform"@ != "basefrequency"@) by { assert("gradienttransform"@.len() != "basefrequency"@.len()); }
        assert("gradienttransform"@ != "baseprofile"@) by { assert("gradienttransform"@.len() != "baseprofile"@.len()); }
        assert("gradienttransform"@ != "calcmode"@) by { assert("gradienttransform"@.len() != "calcmode"@.len()); }
        assert("gradienttransform"@ != "clippathunits"@) by { assert("gradienttransform"@.len() != "clippathunits"@.len()); }
        assert("gradienttransform"@ != "diffuseconstant"@) by { assert("gradienttransform"@.len() != "diffuseconstant"@.len()); }
        assert("gradienttransform"@ != "edgemode"@) by { assert("gradienttransform"@.len() != "edgemode"@.len()); }
        assert("gradienttransform"@ != "filterunits"@) by { assert("gradienttransform"@.len() != "filterunits"@.len()); }
        assert("gradienttransform"@ != "glyphref"@) by { assert("gradienttransform"@.len() != "glyphref"@.len()); }
    }
    assert(lower("gradientTransform"@) =~= "gradienttransform"@);
}

proof fn attr_case_11()
    ensures
        svg_attr_case(lower("gradientUnits"@)) == "gradientUnits"@,
{
    reveal_strlit("gradientUnits");
    reveal_strlit("attributename");
    reveal_strlit("attributetype");
    reveal_strlit("basefrequency");
    reveal_strlit("baseprofile");
    reveal_strlit("calcmode");
    reveal_strlit("clippathunits");
    reveal_strlit("diffuseconstant");
    reveal_strlit("edgemode");
    reveal_strlit("filterunits");
    reveal_strlit("glyphref");
    reveal_strlit("gradienttransform");
    reveal_strlit("gradientunits");
    assert(svg_attr_case("gradientunits"@) == "gradientUnits"@) by {
        assert("gradientunits"@ != "attributename"@) by { assert("gradientunits"@[0] != "attributename"@[0]); }
        assert("gradientunits"@ != "attributetype"@) by { assert("gradientunits"@[0] != "attributetype"@[0]); }
        assert("gradientunits"@ != "basefrequency"@) by { assert("gradientunits"@[0] != "basefrequency"@[0]); }
        assert("gradientunits"@ != "baseprofile"@) by { assert("gradientunits"@.len() != "baseprofile"@.len()); }
        assert("gradientunits"@ != "calcmode"@) by { assert("gradientunits"@.len() != "calcmode"@.len()); }
        assert("gradientunits"@ != "clippathunits"@) by { assert("gradientunits"@[0] != "clippathunits"@[0]); }
        assert("gradientunits"@ != "diffuseconstant"@) by { assert("gradientunits"@.len() != "diffuseconstant"@.len()); }
        assert("gradientunits"@ != "edgemode"@) by { assert("gradientunits"@.len() != "edgemode"@.len()); }
        assert("gradientunits"@ != "filterunits"@) by { assert("gradientunits"@.len() != "filterunits"@.len()); }
        assert("gradientunits"@ != "glyphref"@) by { assert("gradientunits"@.len() != "glyphref"@.len()); }
        assert("gradientunits"@ != "gradienttransform"@) by { assert("gradientunits"@.len() != "gradienttransform"@.len()); }
    }
    assert(lower("gradientUnits"@) =~= "gradientunits"@);
}

proof fn attr_case_12()
    ensures
        svg_attr_case(lower("kernelMatrix"@)) == "kernelMatrix"@,
{
    reveal_strlit("kernelMatrix");
    reveal_strlit("attributename");
    reveal_strlit("attributetype");
    reveal_strlit("basefrequency");
    reveal_strlit("baseprofile");
    reveal_strlit("calcmode");
    reveal_strlit("clippathunits");
    reveal_strlit("diffuseconstant");
    reveal_strlit("edgemode");
    reveal_strlit("filterunits");
    reveal_strlit("glyphref");
    reveal_strlit("gradienttransform");
    reveal_strlit("gradientunits");
    reveal_strlit("kernelmatrix");
    assert(svg_attr_case("kernelmatrix"@) == "kernelMatrix"@) by {
        assert("kernelmatrix"@ != "attributename"@) by { assert("kernelmatrix"@.len() != "attributename"@.len()); }
        assert("kernelmatrix"@ != "attributetype"@) by { assert("kernelmatrix"@.len() != "attributetype"@.len()); }
        assert("kernelmatrix"@ != "basefrequency"@) by { assert("kernelmatrix"@.len() != "basefrequency"@.len()); }
        assert("kernelmatrix"@ != "baseprofile"@) by { assert("kernelmatrix"@.len() != "baseprofile"@.len()); }
        assert("kernelmatrix"@ != "calcmode"@) by { assert("kernelmatrix"@.len() != "calcmode"@.len()); }
        assert("kernelmatrix"@ != "clippathunits"@) by { assert("kernelmatrix"@.len() != "clippathunits"@.len()); }
        assert("kernelmatrix"@ != "diffuseconstant"@) by { assert("kernelmatrix"@.len() != "diffuseconstant"@.len()); }
        assert("kernelmatrix"@ != "edgemode"@) by { assert("kernelmatrix"@.len() != "edgemode"@.len()); }
        assert("kernelmatrix"@ != "filterunits"@) by { assert("kernelmatrix"@.len() != "filterunits"@.len()); }
        assert("kernelmatrix"@ != "glyphref"@) by { assert("kernelmatrix"@.len() != "glyphref"@.len()); }
        assert("kernelmatrix"@ != "gradienttransform"@) by { assert("kernelmatrix"@.len() != "gradienttransform"@.len()); }
        assert("kernelmatrix"@ != "gradientunits"@) by { assert("kernelmatrix"@.len() != "gradientunits"@.len()); }
    }
    assert(lower("kernelMatrix"@) =~= "kernelmatrix"@);
}

proof fn attr_case_13()
    ensures
        svg_attr_case(lower("kernelUnitLength"@)) == "kernelUnitLength"@,
{
    reveal_strlit("kernelUnitLength");
    reveal_strlit("attributename");
    reveal_strlit("attributetype");
    reveal_strlit("basefrequency");
    reveal_strlit("baseprofile");
    reveal_strlit("calcmode");
    reveal_strlit("clippathunits");
    reveal_strlit("diffuseconstant");
    reveal_strlit("edgemode");
    reveal_strlit("filterunits");
    reveal_strlit("glyphref");
    reveal_strlit("gradienttransform");
    reveal_strlit("gradientunits");
    reveal_strlit("kernelmatrix");
    reveal_strlit("kernelunitlength");
    assert(svg_attr_case("kernelunitlength"@) == "kernelUnitLength"@) by {
        assert("kernelunitlength"@ != "attributename"@) by { assert("kernelunitlength"@.len() != "attributename"@.len()); }
        assert("kernelunitlength"@ != "attributetype"@) by { assert("kernelunitlength"@.len() != "attributetype"@.len()); }
        assert("kernelunitlength"@ != "basefrequency"@) by { assert("kernelunitlength"@.len() != "basefrequency"@.len()); }
        assert("kernelunitlength"@ != "baseprofile"@) by { assert("kernelunitlength"@.len() != "baseprofile"@.len()); }
        assert("kernelunitlength"@ != "calcmode"@) by { assert("kernelunitlength"@.len() != "calcmode"@.len()); }
        assert("kernelunitlength"@ != "clippathunits"@) by { assert("kernelunitlength"@.len() != "clippathunits"@.len()); }
        assert("kernelunitlength"@ != "diffuseconstant"@) by { assert("kernelunitlength"@.len() != "diffuseconstant"@.len()); }
        assert("kernelunitlength"@ != "edgemode"@) by { assert("kernelunitlength"@.len() != "edgemode"@.len()); }
        assert("kernelunitlength"@ != "filterunits"@) by { assert("kernelunitlength"@.len() != "filterunits"@.len()); }
        assert("kernelunitlength"@ != "glyphref"@) by { assert("kernelunitlength"@.len() != "glyphref"@.len()); }
        assert("kernelunitlength"@ != "gradienttransform"@) by { assert("kernelunitlength"@.len() != "gradienttransform"@.len()); }
        assert("kernelunitlength"@ != "gradientunits"@) by { assert("kernelunitlength"@.len() != "gradientunits"@.len()); }
        assert("kernelunitlength"@ != "kernelmatrix"@) by { assert("kernelunitlength"@.len() != "kernelmatrix"@.len()); }
    }
    assert(lower("kernelUnitLength"@) =~= "kernelunitlength"@);
}

proof fn attr_case_14()
    ensures
        svg_attr_case(lower("keyPoints"@)) == "keyPoints"@,
{
    reveal_strlit("keyPoints");
    reveal_strlit("attributename");
    reveal_strlit("attributetype");
    reveal_strlit("basefrequency");
    reveal_strlit("baseprofile");
    reveal_strlit("calcmode");
    reveal_strlit("clippathunits");
    reveal_strlit("diffuseconstant");
    reveal_strlit("edgemode");
    reveal_strlit("filterunits");
    reveal_strlit("glyphref");
    reveal_strlit("gradienttransform");
    reveal_strlit("gradientunits");
    reveal_strlit("kernelmatrix");
    reveal_strlit("kernelunitlength");
    reveal_strlit("keypoints");
    assert(svg_attr_case("keypoints"@) == "keyPoints"@) by {
        assert("keypoints"@ != "attributename"@) by { assert("keypoints"@.len() != "attributename"@.len()); }
        assert("keypoints"@ != "attributetype"@) by { assert("keypoints"@.len() != "attributetype"@.len()); }
        assert("keypoints"@ != "basefrequency"@) by { assert("keypoints"@.len() != "basefrequency"@.len()); }
        assert("keypoints"@ != "baseprofile"@) by { assert("keypoints"@.len() != "baseprofile"@.len()); }
        assert("keypoints"@ != "calcmode"@) by { assert("keypoints"@.len() != "calcmode"@.len()); }
        assert("keypoints"@ != "clippathunits"@) by { assert("keypoints"@.len() != "clippathunits"@.len()); }
        assert("keypoints"@ != "diffuseconstant"@) by { assert("keypoints"@.len() != "diffuseconstant"@.len()); }
        assert("keypoints"@ != "edgemode"@) by { assert("keypoints"@.len() != "edgemode"@.len()); }
        assert("keypoints"@ != "filterunits"@) by { assert("keypoints"@.len() != "filterunits"@.len()); }
        assert("keypoints"@ != "glyphref"@) by { assert("keypoints"@.len() != "glyphref"@.len()); }
        assert("keypoints"@ != "gradienttransform"@) by { assert("keypoints"@.len() != "gradienttransform"@.len()); }
        assert("keypoints"@ != "gradientunits"@) by { assert("keypoints"@.len() != "gradientunits"@.len()); }
        assert("keypoints"@ != "kernelmatrix"@) by { assert("keypoints"@.len() != "kernelmatrix"@.len()); }
        assert("keypoints"@ != "kernelunitlength"@) by { assert("keypoints"@.len() != "kernelunitlength"@.len()); }
    }
    assert(lower("keyPoints"@) =~= "keypoints"@);
}

proof fn attr_case_15()
    ensures
        svg_attr_case(lower("keySplines"@)) == "keySplines"@,
{
    reveal_strlit("keySplines");
    reveal_strlit("attributename");
    reveal_strlit("attributetype");
    reveal_strlit("basefrequency");
    reveal_strlit("baseprofile");
    reveal_strlit("calcmode");
    reveal_strlit("clippathunits");
    reveal_strlit("diffuseconstant");
    reveal_strlit("edgemode");
    reveal_strlit("filterunits");
    reveal_strlit("glyphref");
    reveal_strlit("gradienttransform");
    reveal_strlit("gradientunits");
    reveal_strlit("kernelmatrix");
    reveal_strlit("kernelunitlength");
    reveal_strlit("keypoints");
    reveal_strlit("keysplines");
    assert(svg_attr_case("keysplines"@) == "keySplines"@) by {
        assert("keysplines"@ != "attributename"@) by { assert("keysplines"@.len() != "attributename"@.len()); }
        assert("keysplines"@ != "attributetype"@) by { assert("keysplines"@.len() != "attributetype"@.len()); }
        assert("keysplines"@ != "basefrequency"@) by { assert("keysplines"@.len() != "basefrequency"@.len()); }
        assert("keysplines"@ != "baseprofile"@) by { assert("keysplines"@.len() != "baseprofile"@.len()); }
        assert("keysplines"@ != "calcmode"@) by { assert("keysplines"@.len() != "calcmode"@.len()); }
        assert("keysplines"@ != "clippathunits"@) by { assert("keysplines"@.len() != "clippathunits"@.len()); }
        assert("keysplines"@ != "diffuseconstant"@) by { assert("keysplines"@.len() != "diffuseconstant"@.len()); }
        assert("keysplines"@ != "edgemode"@) by { assert("keysplines"@.len() != "edgemode"@.len()); }
        assert("keysplines"@ != "filterunits"@) by { assert("keysplines"@.len() != "filterunits"@.len()); }
        assert("keysplines"@ != "glyphref"@) by { assert("keysplines"@.len() != "glyphref"@.len()); }
        assert("keysplines"@ != "gradienttransform"@) by { assert("keysplines"@.len() != "gradienttransform"@.len()); }
        assert("keysplines"@ != "gradientunits"@) by { assert("keysplines"@.len() != "gradientunits"@.len()); }
        assert("keysplines"@ != "kernelmatrix"@) by { assert("keysplines"@.len() != "kernelmatrix"@.len()); }
        assert("keysplines"@ != "kernelunitlength"@) by { assert("keysplines"@.len() != "kernelunitlength"@.len()); }
        assert("keysplines"@ != "keypoints"@) by { assert("keysplines"@.len() != "keypoints"@.len()); }
    }
    assert(lower("keySplines"@) =~= "keysplines"@);
}

proof fn attr_case_16()
    ensures
        svg_attr_case(lower("keyTimes"@)) == "keyTimes"@,
{
    reveal_strlit("keyTimes");
    reveal_strlit("attributename");
    reveal_strlit("attributetype");
    reveal_strlit("basefrequency");
    reveal_strlit("baseprofile");
    reveal_strlit("calcmode");
    reveal_strlit("clippathunits");
    reveal_strlit("diffuseconstant");
    reveal_strlit("edgemode");
    reveal_strlit("filterunits");
    reveal_strlit("glyphref");
    reveal_strlit("gradienttransform");
    reveal_strlit("gradientunits");
    reveal_strlit("kernelmatrix");
    reveal_strlit("kernelunitlength");
    reveal_strlit("keypoints");
    reveal_strlit("keysplines");
    reveal_strlit("keytimes");
    assert(svg_attr_case("keytimes"@) == "keyTimes"@) by {
        assert("keytimes"@ != "attributename"@) by { assert("keytimes"@.len() != "attributename"@.len()); }
        assert("keytimes"@ != "attributetype"@) by { assert("keytimes"@.len() != "attributetype"@.len()); }
        assert("keytimes"@ != "basefrequency"@) by { assert("keytimes"@.len() != "basefrequency"@.len()); }
        assert("keytimes"@ != "baseprofile"@) by { assert("keytimes"@.len() != "baseprofile"@.len()); }
        assert("keytimes"@ != "calcmode"@) by { assert("keytimes"@[0] != "calcmode"@[0]); }
        assert("keytimes"@ != "clippathunits"@) by { assert("keytimes"@.len() != "clippathunits"@.len()); }
        assert("keytimes"@ != "diffuseconstant"@) by { assert("keytimes"@.len() != "diffuseconstant"@.len()); }
        assert("keytimes"@ != "edgemode"@) by { assert("keytimes"@[0] != "edgemode"@[0]); }
        assert("keytimes"@ != "filterunits"@) by { assert("keytimes"@.len() != "filterunits"@.len()); }
        assert("keytimes"@ != "glyphref"@) by { assert("keytimes"@[0] != "glyphref"@[0]); }
        assert("keytimes"@ != "gradienttransform"@) by { assert("keytimes"@.len() != "gradienttransform"@.len()); }
        assert("keytimes"@ != "gradientunits"@) by { assert("keytimes"@.len() != "gradientunits"@.len()); }
        assert("keytimes"@ != "kernelmatrix"@) by { assert("keytimes"@.len() != "kernelmatrix"@.len()); }
        assert("keytimes"@ != "kernelunitlength"@) by { assert("keytimes"@.len() != "kernelunitlength"@.len()); }
        assert("keytimes"@ != "keypoints"@) by { assert("keytimes"@.len() != "keypoints"@.len()); }
        assert("keytimes"@ != "keysplines"@) by { assert("keytimes"@.len() != "keysplines"@.len()); }
    }
    assert(lower("keyTimes"@) =~= "keytimes"@);
}

proof fn attr_case_17()
    ensures
        svg_attr_case(lower("lengthAdjust"@)) == "lengthAdjust"@,
{
    reveal_strlit("lengthAdjust");
    reveal_strlit("attributename");
    reveal_strlit("attributetype");
    reveal_strlit("basefrequency");
    reveal_strlit("baseprofile");
    reveal_strlit("calcmode");
    reveal_strlit("clippathunits");
    reveal_strlit("diffuseconstant");
    reveal_strlit("edgemode");
    reveal_strlit("filterunits");
    reveal_strlit("glyphref");
    reveal_strlit("gradienttransform");
    reveal_strlit("gradientunits");
    reveal_strlit("kernelmatrix");
    reveal_strlit("kernelunitlength");
    reveal_strlit("keypoints");
    reveal_strlit("keysplines");
    reveal_strlit("keytimes");
    reveal_strlit("lengthadjust");
    assert(svg_attr_case("lengthadjust"@) == "lengthAdjust"@) by {
        assert("lengthadjust"@ != "attributename"@) by { assert("lengthadjust"@.len() != "attributename"@.len()); }
        assert("lengthadjust"@ != "attributetype"@) by { assert("lengthadjust"@.len() != "attributetype"@.len()); }
        assert("lengthadjust"@ != "basefrequency"@) by { assert("lengthadjust"@.len() != "basefrequency"@.len()); }
        assert("lengthadjust"@ != "baseprofile"@) by { assert("lengthadjust"@.len() != "baseprofile"@.len()); }
        assert("lengthadjust"@ != "calcmode"@) by { assert("lengthadjust"@.len() != "calcmode"@.len()); }
        assert("lengthadjust"@ != "clippathunits"@) by { assert("lengthadjust"@.len() != "clippathunits"@.len()); }
        assert("lengthadjust"@ != "diffuseconstant"@) by { assert("lengthadjust"@.len() != "diffuseconstant"@.len()); }
        assert("lengthadjust"@ != "edgemode"@) by { assert("lengthadjust"@.len() != "edgemode"@.len()); }
        assert("lengthadjust"@ != "filterunits"@) by { assert("lengthadjust"@.len() != "filterunits"@.len()); }
        assert("lengthadjust"@ != "glyphref"@) by { assert("lengthadjust"@.len() != "glyphref"@.len()); }
        assert("lengthadjust"@ != "gradienttransform"@) by { assert("lengthadjust"@.len() != "gradienttransform"@.len()); }
        assert("lengthadjust"@ != "gradientunits"@) by { assert("lengthadjust"@.len() != "gradientunits"@.len()); }
        assert("lengthadjust"@ != "kernelmatrix"@) by { assert("lengthadjust"@[0] != "kernelmatrix"@[0]); }
        assert("lengthadjust"@ != "kernelunitlength"@) by { assert("lengthadjust"@.len() != "kernelunitlength"@.len()); }
        assert("lengthadjust"@ != "keypoints"@) by { assert("lengthadjust"@.len() != "keypoints"@.len()); }
        assert("lengthadjust"@ != "keysplines"@) by { assert("lengthadjust"@.len() != "keysplines"@.len()); }
        assert("lengthadjust"@ != "keytimes"@) by { assert("lengthadjust"@.len() != "keytimes"@.len()); }
    }
    assert(lower("lengthAdjust"@) =~= "lengthadjust"@);
}

proof fn attr_case_18()
    ensures
        svg_attr_case(lower("limitingConeAngle"@)) == "limitingConeAngle"@,
{
    reveal_strlit("limitingConeAngle");
    reveal_strlit("attributename");
    reveal_strlit("attributetype");
    reveal_strlit("basefrequency");
    reveal_strlit("baseprofile");
    reveal_strlit("calcmode");
    reveal_strlit("clippathunits");
    reveal_strlit("diffuseconstant");
    reveal_strlit("edgemode");
    reveal_strlit("filterunits");
    reveal_strlit("glyphref");
    reveal_strlit("gradienttransform");
    reveal_strlit("gradientunits");
    reveal_strlit("kernelmatrix");
    reveal_strlit("kernelunitlength");
    reveal_strlit("keypoints");
    reveal_strlit("keysplines");
    reveal_strlit("keytimes");
    reveal_strlit("lengthadjust");
    reveal_strlit("limitingconeangle");
    assert(svg_attr_case("limitingconeangle"@) == "limitingConeAngle"@) by {
        assert("limitingconeangle"@ != "attributename"@) by { assert("limitingconeangle"@.len() != "attributename"@.len()); }
        assert("limitingconeangle"@ != "attributetype"@) by { assert("limitingconeangle"@.len() != "attributetype"@.len()); }
        assert("limitingconeangle"@ != "basefrequency"@) by { assert("limitingconeangle"@.len() != "basefrequency"@.len()); }
        assert("limitingconeangle"@ != "baseprofile"@) by { assert("limitingconeangle"@.len() != "baseprofile"@.len()); }
        assert("limitingconeangle"@ != "calcmode"@) by { assert("limitingconeangle"@.len() != "calcmode"@.len()); }
        assert("limitingconeangle"@ != "clippathunits"@) by { assert("limitingconeangle"@.len() != "clippathunits"@.len()); }
        assert("limitingconeangle"@ != "diffuseconstant"@) by { assert("limitingconeangle"@.len() != "diffuseconstant"@.len()); }
        assert("limitingconeangle"@ != "edgemode"@) by { assert("limitingconeangle"@.len() != "edgemode"@.len()); }
        assert("limitingconeangle"@ != "filterunits"@) by { assert("limitingconeangle"@.len() != "filterunits"@.len()); }
        assert("limitingconeangle"@ != "glyphref"@) by { assert("limitingconeangle"@.len() != "glyphref"@.len()); }
        assert("limitingconeangle"@ != "gradienttransform"@) by { assert("limitingconeangle"@[0] != "gradienttransform"@[0]); }
        assert("limitingconeangle"@ != "gradientunits"@) by { assert("limitingconeangle"@.len() != "gradientunits"@.len()); }
        assert("limitingconeangle"@ != "kernelmatrix"@) by { assert("limitingconeangle"@.len() != "kernelmatrix"@.len()); }
        assert("limitingconeangle"@ != "kernelunitlength"@) by { assert("limitingconeangle"@.len() != "kernelunitlength"@.len()); }
        assert("limitingconeangle"@ != "keypoints"@) by { assert("limitingconeangle"@.len() != "keypoints"@.len()); }
        assert("limitingconeangle"@ != "keysplines"@) by { assert("limitingconeangle"@.len() != "keysplines"@.len()); }
        assert("limitingconeangle"@ != "keytimes"@) by { assert("limitingconeangle"@.len() != "keytimes"@.len()); }
        assert("limitingconeangle"@ != "lengthadjust"@) by { assert("limitingconeangle"@.len() != "lengthadjust"@.len()); }
    }
    assert(lower("limitingConeAngle"@) =~= "limitingconeangle"@);
}

proof fn attr_case_19()
    ensures
        svg_attr_case(lower("markerHeight"@)) == "markerHeight"@,
{
    reveal_strlit("markerHeight");
    reveal_strlit("attributename");
    reveal_strlit("attributetype");
    reveal_strlit("basefrequency");
    reveal_strlit("baseprofile");
    reveal_strlit("calcmode");
    reveal_strlit("clippathunits");
    reveal_strlit("diffuseconstant");
    reveal_strlit("edgemode");
    reveal_strlit("filterunits");
    reveal_strlit("glyphref");
    reveal_strlit("gradienttransform");
    reveal_strlit("gradientunits");
    reveal_strlit("kernelmatrix");
    reveal_strlit("kernelunitlength");
    reveal_strlit("keypoints");
    reveal_strlit("keysplines");
    reveal_strlit("keytimes");
    reveal_strlit("lengthadjust");
    reveal_strlit("limitingconeangle");
    reveal_strlit("markerheight");
    assert(svg_attr_case("markerheight"@) == "markerHeight"@) by {
        assert("markerheight"@ != "attributename"@) by { assert("markerheight"@.len() != "attributename"@.len()); }
        assert("markerheight"@ != "attributetype"@) by { assert("markerheight"@.len() != "attributetype"@.len()); }
        assert("markerheight"@ != "basefrequency"@) by { assert("markerheight"@.len() != "basefrequency"@.len()); }
        assert("markerheight"@ != "baseprofile"@) by { assert("markerheight"@.len() != "baseprofile"@.len()); }
        assert("markerheight"@ != "calcmode"@) by { assert("markerheight"@.len() != "calcmode"@.len()); }
        assert("markerheight"@ != "clippathunits"@) by { assert("markerheight"@.len() != "clippathunits"@.len()); }
        assert("markerheight"@ != "diffuseconstant"@) by { assert("markerheight"@.len() != "diffuseconstant"@.len()); }
        assert("markerheight"@ != "edgemode"@) by { assert("markerheight"@.len() != "edgemode"@.len()); }
        assert("markerheight"@ != "filterunits"@) by { assert("markerheight"@.len() != "filterunits"@.len()); }
        assert("markerheight"@ != "glyphref"@) by { assert("markerheight"@.len() != "glyphref"@.len()); }
        assert("markerheight"@ != "gradienttransform"@) by { assert("markerheight"@.len() != "gradienttransform"@.len()); }
        assert("markerheight"@ != "gradientunits"@) by { assert("markerheight"@.len() != "gradientunits"@.len()); }
        assert("markerheight"@ != "kernelmatrix"@) by { assert("markerheight"@[0] != "kernelmatrix"@[0]); }
        assert("markerheight"@ != "kernelunitlength"@) by { assert("markerheight"@.len() != "kernelunitlength"@.len()); }
        assert("markerheight"@ != "keypoints"@) by { assert("markerheight"@.len() != "keypoints"@.len()); }
        assert("markerheight"@ != "keysplines"@) by { assert("markerheight"@.len() != "keysplines"@.len()); }
        assert("markerheight"@ != "keytimes"@) by { assert("markerheight"@.len() != "keytimes"@.len()); }
        assert("markerheight"@ != "lengthadjust"@) by { assert("markerheight"@[0] != "lengthadjust"@[0]); }
        assert("markerheight"@ != "limitingconeangle"@) by { assert("markerheight"@.len() != "limitingconeangle"@.len()); }
    }
    assert(lower("markerHeight"@) =~= "markerheight"@);
}

proof fn attr_case_20()
    ensures
        svg_attr_case(lower("markerUnits"@)) == "markerUnits"@,
{
    reveal_strlit("markerUnits");
    reveal_strlit("attributename");
    reveal_strlit("attributetype");
    reveal_strlit("basefrequency");
    reveal_strlit("baseprofile");
    reveal_strlit("calcmode");
    reveal_strlit("clippathunits");
    reveal_strlit("diffuseconstant");
    reveal_strlit("edgemode");
    reveal_strlit("filterunits");
    reveal_strlit("glyphref");
    reveal_strlit("gradienttransform");
    reveal_strlit("gradientunits");
    reveal_strlit("kernelmatrix");
    reveal_strlit("kernelunitlength");
    reveal_strlit("keypoints");
    reveal_strlit("keysplines");
    reveal_strlit("keytimes");
    reveal_strlit("lengthadjust");
    reveal_strlit("limitingconeangle");
    reveal_strlit("markerheight");
    reveal_strlit("markerunits");
    assert(svg_attr_case("markerunits"@) == "markerUnits"@) by {
        assert("markerunits"@ != "attributename"@) by { assert("markerunits"@.len() != "attributename"@.len()); }
        assert("markerunits"@ != "attributetype"@) by { assert("markerunits"@.len() != "attributetype"@.len()); }
        assert("markerunits"@ != "basefrequency"@) by { assert("markerunits"@.len() != "basefrequency"@.len()); }
        assert("markerunits"@ != "baseprofile"@) by { assert("markerunits"@[0] != "baseprofile"@[0]); }
        assert("markerunits"@ != "calcmode"@) by { assert("markerunits"@.len() != "calcmode"@.len()); }
        assert("markerunits"@ != "clippathunits"@) by { assert("markerunits"@.len() != "clippathunits"@.len()); }
        assert("markerunits"@ != "diffuseconstant"@) by { assert("markerunits"@.len() != "diffuseconstant"@.len()); }
        assert("markerunits"@ != "edgemode"@) by { assert("markerunits"@.len() != "edgemode"@.len()); }
        assert("markerunits"@ != "filterunits"@) by { assert("markerunits"@[0] != "filterunits"@[0]); }
        assert("markerunits"@ != "glyphref"@) by { assert("markerunits"@.len() != "glyphref"@.len()); }
        assert("markerunits"@ != "gradienttransform"@) by { assert("markerunits"@.len() != "gradienttransform"@.len()); }
        assert("markerunits"@ != "gradientunits"@) by { assert("markerunits"@.len() != "gradientunits"@.len()); }
        assert("markerunits"@ != "kernelmatrix"@) by { assert("markerunits"@.len() != "kernelmatrix"@.len()); }
        assert("markerunits"@ != "kernelunitlength"@) by { assert("markerunits"@.len() != "kernelunitlength"@.len()); }
        assert("markerunits"@ != "keypoints"@) by { assert("markerunits"@.len() != "keypoints"@.len()); }
        assert("markerunits"@ != "keysplines"@) by { assert("markerunits"@.len() != "keysplines"@.len()); }
        assert("markerunits"@ != "keytimes"@) by { assert("markerunits"@.len() != "keytimes"@.len()); }
        assert("markerunits"@ != "lengthadjust"@) by { assert("markerunits"@.len() != "lengthadjust"@.len()); }
        assert("markerunits"@ != "limitingconeangle"@) by { assert("markerunits"@.len() != "limitingconeangle"@.len()); }
        assert("markerunits"@ != "markerheight"@) by { assert("markerunits"@.len() != "markerheight"@.len()); }
    }
    assert(lower("markerUnits"@) =~= "markerunits"@);
}

proof fn attr_case_21()
    ensures
        svg_attr_case(lower("markerWidth"@)) == "markerWidth"@,
{
    reveal_strlit("markerWidth");
    reveal_strlit("attributename");
    reveal_strlit("attributetype");
    reveal_strlit("basefrequency");
    reveal_strlit("baseprofile");
    reveal_strlit("calcmode");
    reveal_strlit("clippathunits");
    reveal_strlit("diffuseconstant");
    reveal_strlit("edgemode");
    reveal_strlit("filterunits");
    reveal_strlit("glyphref");
    reveal_strlit("gradienttransform");
    reveal_strlit("gradientunits");
    reveal_strlit("kernelmatrix");
    reveal_strlit("kernelunitlength");
    reveal_strlit("keypoints");
    reveal_strlit("keysplines");
    reveal_strlit("keytimes");
    reveal_strlit("lengthadjust");
    reveal_strlit("limitingconeangle");
    reveal_strlit("markerheight");
    reveal_strlit("markerunits");
    reveal_strlit("markerwidth");
    assert(svg_attr_case("markerwidth"@) == "markerWidth"@) by {
        assert("markerwidth"@ != "attributename"@) by { assert("markerwidth"@.len() != "attributename"@.len()); }
        assert("markerwidth"@ != "attributetype"@) by { assert("markerwidth"@.len() != "attributetype"@.len()); }
        assert("markerwidth"@ != "basefrequency"@) by { assert("markerwidth"@.len() != "basefrequency"@.len()); }
        assert("markerwidth"@ != "baseprofile"@) by { assert("markerwidth"@[0] != "baseprofile"@[0]); }
        assert("markerwidth"@ != "calcmode"@) by { assert("markerwidth"@.len() != "calcmode"@.len()); }
        assert("markerwidth"@ != "clippathunits"@) by { assert("markerwidth"@.len() != "clippathunits"@.len()); }
        assert("markerwidth"@ != "diffuseconstant"@) by { assert("markerwidth"@.len() != "diffuseconstant"@.len()); }
        assert("markerwidth"@ != "edgemode"@) by { assert("markerwidth"@.len() != "edgemode"@.len()); }
        assert("markerwidth"@ != "filterunits"@) by { assert("markerwidth"@[0] != "filterunits"@[0]); }
        assert("markerwidth"@ != "glyphref"@) by { assert("markerwidth"@.len() != "glyphref"@.len()); }
        assert("markerwidth"@ != "gradienttransform"@) by { assert("markerwidth"@.len() != "gradienttransform"@.len()); }
        assert("markerwidth"@ != "gradientunits"@) by { assert("markerwidth"@.len() != "gradientunits"@.len()); }
        assert("markerwidth"@ != "kernelmatrix"@) by { assert("markerwidth"@.len() != "kernelmatrix"@.len()); }
        assert("markerwidth"@ != "kernelunitlength"@) by { assert("markerwidth"@.len() != "kernelunitlength"@.len()); }
        assert("markerwidth"@ != "keypoints"@) by { assert("markerwidth"@.len() != "keypoints"@.len()); }
        assert("markerwidth"@ != "keysplines"@) by { assert("markerwidth"@.len() != "keysplines"@.len()); }
        assert("markerwidth"@ != "keytimes"@) by { assert("markerwidth"@.len() != "keytimes"@.len()); }
        assert("markerwidth"@ != "lengthadjust"@) by { assert("markerwidth"@.len() != "lengthadjust"@.len()); }
        assert("markerwidth"@ != "limitingconeangle"@) by { assert("markerwidth"@.len() != "limitingconeangle"@.len()); }
        assert("markerwidth"@ != "markerheight"@) by { assert("markerwidth"@.len() != "markerheight"@.len()); }
        assert("markerwidth"@ != "markerunits"@) by { assert("markerwidth"@[6] != "markerunits"@[6]); }
    }
    assert(lower("markerWidth"@) =~= "markerwidth"@);
}

proof fn attr_case_22()
    ensures
        svg_attr_case(lower("maskContentUnits"@)) == "maskContentUnits"@,
{
    reveal_strlit("maskContentUnits");
    reveal_strlit("attributename");
    reveal_strlit("attributetype");
    reveal_strlit("basefrequency");
    reveal_strlit("baseprofile");
    reveal_strlit("calcmode");
    reveal_strlit("clippathunits");
    reveal_strlit("diffuseconstant");
    reveal_strlit("edgemode");
    reveal_strlit("filterunits");
    reveal_strlit("glyphref");
    reveal_strlit("gradienttransform");
    reveal_strlit("gradientunits");
    reveal_strlit("kernelmatrix");
    reveal_strlit("kernelunitlength");
    reveal_strlit("keypoints");
    reveal_strlit("keysplines");
    reveal_strlit("keytimes");
    reveal_strlit("lengthadjust");
    reveal_strlit("limitingconeangle");
    reveal_strlit("markerheight");
    reveal_strlit("markerunits");
    reveal_strlit("markerwidth");
    reveal_strlit("maskcontentunits");
    assert(svg_attr_case("maskcontentunits"@) == "maskContentUnits"@) by {
        assert("maskcontentunits"@ != "attributename"@) by { assert("maskcontentunits"@.len() != "attributename"@.len()); }
        assert("maskcontentunits"@ != "attributetype"@) by { assert("maskcontentunits"@.len() != "attributetype"@.len()); }
        assert("maskcontentunits"@ != "basefrequency"@) by { assert("maskcontentunits"@.len() != "basefrequency"@.len()); }
        assert("maskcontentunits"@ != "baseprofile"@) by { assert("maskcontentunits"@.len() != "baseprofile"@.len()); }
        assert("maskcontentunits"@ != "calcmode"@) by { assert("maskcontentunits"@.len() != "calcmode"@.len()); }
        assert("maskcontentunits"@ != "clippathunits"@) by { assert("maskcontentunits"@.len() != "clippathunits"@.len()); }
        assert("maskcontentunits"@ != "diffuseconstant"@) by { assert("maskcontentunits"@.len() != "diffuseconstant"@.len()); }
        assert("maskcontentunits"@ != "edgemode"@) by { assert("maskcontentunits"@.len() != "edgemode"@.len()); }
        assert("maskcontentunits"@ != "filterunits"@) by { assert("maskcontentunits"@.len() != "filterunits"@.len()); }
        assert("maskcontentunits"@ != "glyphref"@) by { assert("maskcontentunits"@.len() != "glyphref"@.len()); }
        assert("maskcontentunits"@ != "gradienttransform"@) by { assert("maskcontentunits"@.len() != "gradienttransform"@.len()); }
        assert("maskcontentunits"@ != "gradientunits"@) by { assert("maskcontentunits"@.len() != "gradientunits"@.len()); }
        assert("maskcontentunits"@ != "kernelmatrix"@) by { assert("maskcontentunits"@.len() != "kernelmatrix"@.len()); }
        assert("maskcontentunits"@ != "kernelunitlength"@) by { assert("maskcontentunits"@[0] != "kernelunitlength"@[0]); }
        assert("maskcontentunits"@ != "keypoints"@) by { assert("maskcontentunits"@.len() != "keypoints"@.len()); }
        assert("maskcontentunits"@ != "keysplines"@) by { assert("maskcontentunits"@.len() != "keysplines"@.len()); }
        assert("maskcontentunits"@ != "keytimes"@) by { assert("maskcontentunits"@.len() != "keytimes"@.len()); }
        assert("maskcontentunits"@ != "lengthadjust"@) by { assert("maskcontentunits"@.len() != "lengthadjust"@.len()); }
        assert("maskcontentunits"@ != "limitingconeangle"@) by { assert("maskcontentunits"@.len() != "limitingconeangle"@.len()); }
        assert("maskcontentunits"@ != "markerheight"@) by { assert("maskcontentunits"@.len() != "markerheight"@.len()); }
        assert("maskcontentunits"@ != "markerunits"@) by { assert("maskcontentunits"@.len() != "markerunits"@.len()); }
        assert("maskcontentunits"@ != "markerwidth"@) by { assert("maskcontentunits"@.len() != "markerwidth"@.len()); }
    }
    assert(lower("maskContentUnits"@) =~= "maskcontentunits"@);
}

proof fn attr_case_23()
    ensures
        svg_attr_case(lower("maskUnits"@)) == "maskUnits"@,
{
    reveal_strlit("maskUnits");
    reveal_strlit("attributename");
    reveal_strlit("attributetype");
    reveal_strlit("basefrequency");
    reveal_strlit("baseprofile");
    reveal_strlit("calcmode");
    reveal_strlit("clippathunits");
    reveal_strlit("diffuseconstant");
    reveal_strlit("edgemode");
    reveal_strlit("filterunits");
    reveal_strlit("glyphref");
    reveal_strlit("gradienttransform");
    reveal_strlit("gradientunits");
    reveal_strlit("kernelmatrix");
    reveal_strlit("kernelunitlength");
    reveal_strlit("keypoints");
    reveal_strlit("keysplines");
    reveal_strlit("keytimes");
    reveal_strlit("lengthadjust");
    reveal_strlit("limitingconeangle");
    reveal_strlit("markerheight");
    reveal_strlit("markerunits");
    reveal_strlit("markerwidth");
    reveal_strlit("maskcontentunits");
    reveal_strlit("maskunits");
    assert(svg_attr_case("maskunits"@) == "maskUnits"@) by {
        assert("maskunits"@ != "attributename"@) by { assert("maskunits"@.len() != "attributename"@.len()); }
        assert("maskunits"@ != "attributetype"@) by { assert("maskunits"@.len() != "attributetype"@.len()); }
        assert("maskunits"@ != "basefrequency"@) by { assert("maskunits"@.len() != "basefrequency"@.len()); }
        assert("maskunits"@ != "baseprofile"@) by { assert("maskunits"@.len() != "baseprofile"@.len()); }
        assert("maskunits"@ != "calcmode"@) by { assert("maskunits"@.len() != "calcmode"@.len()); }
        assert("maskunits"@ != "clippathunits"@) by { assert("maskunits"@.len() != "clippathunits"@.len()); }
        assert("maskunits"@ != "diffuseconstant"@) by { assert("maskunits"@.len() != "diffuseconstant"@.len()); }
        assert("maskunits"@ != "edgemode"@) by { assert("maskunits"@.len() != "edgemode"@.len()); }
        assert("maskunits"@ != "filterunits"@) by { assert("maskunits"@.len() != "filterunits"@.len()); }
        assert("maskunits"@ != "glyphref"@) by { assert("maskunits"@.len() != "glyphref"@.len()); }
        assert("maskunits"@ != "gradienttransform"@) by { assert("maskunits"@.len() != "gradienttransform"@.len()); }
        assert("maskunits"@ != "gradientunits"@) by { assert("maskunits"@.len() != "gradientunits"@.len()); }
        assert("maskunits"@ != "kernelmatrix"@) by { assert("maskunits"@.len() != "kernelmatrix"@.len()); }
        assert("maskunits"@ != "kernelunitlength"@) by { assert("maskunits"@.len() != "kernelunitlength"@.len()); }
        assert("maskunits"@ != "keypoints"@) by { assert("maskunits"@[0] != "keypoints"@[0]); }
        assert("maskunits"@ != "keysplines"@) by { assert("maskunits"@.len() != "keysplines"@.len()); }
        assert("maskunits"@ != "keytimes"@) by { assert("maskunits"@.len() != "keytimes"@.len()); }
        assert("maskunits"@ != "lengthadjust"@) by { assert("maskunits"@.len() != "lengthadjust"@.len()); }
        assert("maskunits"@ != "limitingconeangle"@) by { assert("maskunits"@.len() != "limitingconeangle"@.len()); }
        assert("maskunits"@ != "markerheight"@) by { assert("maskunits"@.len() != "markerheight"@.len()); }
        assert("maskunits"@ != "markerunits"@) by { assert("maskunits"@.len() != "markerunits"@.len()); }
        assert("maskunits"@ != "markerwidth"@) by { assert("maskunits"@.len() != "markerwidth"@.len()); }
        assert("maskunits"@ != "maskcontentunits"@) by { assert("maskunits"@.len() != "maskcontentunits"@.len()); }
    }
    assert(lower("maskUnits"@) =~= "maskunits"@);
}

proof fn attr_case_24()
    ensures
        svg_attr_case(lower("numOctaves"@)) == "numOctaves"@,
{
    reveal_strlit("numOctaves");
    reveal_strlit("attributename");
    reveal_strlit("attributetype");
    reveal_strlit("basefrequency");
    reveal_strlit("baseprofile");
    reveal_strlit("calcmode");
    reveal_strlit("clippathunits");
    reveal_strlit("diffuseconstant");
    reveal_strlit("edgemode");
    reveal_strlit("filterunits");
    reveal_strlit("glyphref");
    reveal_strlit("gradienttransform");
    reveal_strlit("gradientunits");
    reveal_strlit("kernelmatrix");
    reveal_strlit("kernelunitlength");
    reveal_strlit("keypoints");
    reveal_strlit("keysplines");
    reveal_strlit("keytimes");
    reveal_strlit("lengthadjust");
    reveal_strlit("limitingconeangle");
    reveal_strlit("markerheight");
    reveal_strlit("markerunits");
    reveal_strlit("markerwidth");
    reveal_strlit("maskcontentunits");
    reveal_strlit("maskunits");
    reveal_strlit("numoctaves");
    assert(svg_attr_case("numoctaves"@) == "numOctaves"@) by {
        assert("numoctaves"@ != "attributename"@) by { assert("numoctaves"@.len() != "attributename"@.len()); }
        assert("numoctaves"@ != "attributetype"@) by { assert("numoctaves"@.len() != "attributetype"@.len()); }
        assert("numoctaves"@ != "basefrequency"@) by { assert("numoctaves"@.len() != "basefrequency"@.len()); }
        assert("numoctaves"@ != "baseprofile"@) by { assert("numoctaves"@.len() != "baseprofile"@.len()); }
        assert("numoctaves"@ != "calcmode"@) by { assert("numoctaves"@.len() != "calcmode"@.len()); }
        assert("numoctaves"@ != "clippathunits"@) by { assert("numoctaves"@.len() != "clippathunits"@.len()); }
        assert("numoctaves"@ != "diffuseconstant"@) by { assert("numoctaves"@.len() != "diffuseconstant"@.len()); }
        assert("numoctaves"@ != "edgemode"@) by { assert("numoctaves"@.len() != "edgemode"@.len()); }
        assert("numoctaves"@ != "filterunits"@) by { assert("numoctaves"@.len() != "filterunits"@.len()); }
        assert("numoctaves"@ != "glyphref"@) by { assert("numoctaves"@.len() != "glyphref"@.len()); }
        assert("numoctaves"@ != "gradienttransform"@) by { assert("numoctaves"@.len() != "gradienttransform"@.len()); }
        assert("numoctaves"@ != "gradientunits"@) by { assert("numoctaves"@.len() != "gradientunits"@.len()); }
        assert("numoctaves"@ != "kernelmatrix"@) by { assert("numoctaves"@.len() != "kernelmatrix"@.len()); }
        assert("numoctaves"@ != "kernelunitlength"@) by { assert("numoctaves"@.len() != "kernelunitlength"@.len()); }
        assert("numoctaves"@ != "keypoints"@) by { assert("numoctaves"@.len() != "keypoints"@.len()); }
        assert("numoctaves"@ != "keysplines"@) by { assert("numoctaves"@[0] != "keysplines"@[0]); }
        assert("numoctaves"@ != "keytimes"@) by { assert("numoctaves"@.len() != "keytimes"@.len()); }
        assert("numoctaves"@ != "lengthadjust"@) by { assert("numoctaves"@.len() != "lengthadjust"@.len()); }
        assert("numoctaves"@ != "limitingconeangle"@) by { assert("numoctaves"@.len() != "limitingconeangle"@.len()); }
        assert("numoctaves"@ != "markerheight"@) by { assert("numoctaves"@.len() != "markerheight"@.len()); }
        assert("numoctaves"@ != "markerunits"@) by { assert("numoctaves"@.len() != "markerunits"@.len()); }
        assert("numoctaves"@ != "markerwidth"@) by { assert("numoctaves"@.len() != "markerwidth"@.len()); }
        assert("numoctaves"@ != "maskcontentunits"@) by { assert("numoctaves"@.len() != "maskcontentunits"@.len()); }
        assert("numoctaves"@ != "maskunits"@) by { assert("numoctaves"@.len() != "maskunits"@.len()); }
    }
    assert(lower("numOctaves"@) =~= "numoctaves"@);
}

proof fn attr_case_25()
    ensures
        svg_attr_case(lower("pathLength"@)) == "pathLength"@,
{
    reveal_strlit("pathLength");
    reveal_strlit("attributename");
    reveal_strlit("attributetype");
    reveal_strlit("basefrequency");
    reveal_strlit("baseprofile");
    reveal_strlit("calcmode");
    reveal_strlit("clippathunits");
    reveal_strlit("diffuseconstant");
    reveal_strlit("edgemode");
    reveal_strlit("filterunits");
    reveal_strlit("glyphref");
    reveal_strlit("gradienttransform");
    reveal_strlit("gradientunits");
    reveal_strlit("kernelmatrix");
    reveal_strlit("kernelunitlength");
    reveal_strlit("keypoints");
    reveal_strlit("keysplines");
    reveal_strlit("keytimes");
    reveal_strlit("lengthadjust");
    reveal_strlit("limitingconeangle");
    reveal_strlit("markerheight");
    reveal_strlit("markerunits");
    reveal_strlit("markerwidth");
    reveal_strlit("maskcontentunits");
    reveal_strlit("maskunits");
    reveal_strlit("numoctaves");
    reveal_strlit("pathlength");
    assert(svg_attr_case("pathlength"@) == "pathLength"@) by {
        assert("pathlength"@ != "attributename"@) by { assert("pathlength"@.len() != "attributename"@.len()); }
        assert("pathlength"@ != "attributetype"@) by { assert("pathlength"@.len() != "attributetype"@.len()); }
        assert("pathlength"@ != "basefrequency"@) by { assert("pathlength"@.len() != "basefrequency"@.len()); }
        assert("pathlength"@ != "baseprofile"@) by { assert("pathlength"@.len() != "baseprofile"@.len()); }
        assert("pathlength"@ != "calcmode"@) by { assert("pathlength"@.len() != "calcmode"@.len()); }
        assert("pathlength"@ != "clippathunits"@) by { assert("pathlength"@.len() != "clippathunits"@.len()); }
        assert("pathlength"@ != "diffuseconstant"@) by { assert("pathlength"@.len() != "diffuseconstant"@.len()); }
        assert("pathlength"@ != "edgemode"@) by { assert("pathlength"@.len() != "edgemode"@.len()); }
        assert("pathlength"@ != "filterunits"@) by { assert("pathlength"@.len() != "filterunits"@.len()); }
        assert("pathlength"@ != "glyphref"@) by { assert("pathlength"@.len() != "glyphref"@.len()); }
        assert("pathlength"@ != "gradienttransform"@) by { assert("pathlength"@.len() != "gradienttransform"@.len()); }
        assert("pathlength"@ != "gradientunits"@) by { assert("pathlength"@.len() != "gradientunits"@.len()); }
        assert("pathlength"@ != "kernelmatrix"@) by { assert("pathlength"@.len() != "kernelmatrix"@.len()); }
        assert("pathlength"@ != "kernelunitlength"@) by { assert("pathlength"@.len() != "kernelunitlength"@.len()); }
        assert("pathlength"@ != "keypoints"@) by { assert("pathlength"@.len() != "keypoints"@.len()); }
        assert("pathlength"@ != "keysplines"@) by { assert("pathlength"@[0] != "keysplines"@[0]); }
        assert("pathlength"@ != "keytimes"@) by { assert("pathlength"@.len() != "keytimes"@.len()); }
        assert("pathlength"@ != "lengthadjust"@) by { assert("pathlength"@.len() != "lengthadjust"@.len()); }
        assert("pathlength"@ != "limitingconeangle"@) by { assert("pathlength"@.len() != "limitingconeangle"@.len()); }
        assert("pathlength"@ != "markerheight"@) by { assert("pathlength"@.len() != "markerheight"@.len()); }
        assert("pathlength"@ != "markerunits"@) by { assert("pathlength"@.len() != "markerunits"@.len()); }
        assert("pathlength"@ != "markerwidth"@) by { assert("pathlength"@.len() != "markerwidth"@.len()); }
        assert("pathlength"@ != "maskcontentunits"@) by { assert("pathlength"@.len() != "maskcontentunits"@.len()); }
        assert("pathlength"@ != "maskunits"@) by { assert("pathlength"@.len() != "maskunits"@.len()); }
        assert("pathlength"@ != "numoctaves"@) by { assert("pathlength"@[0] != "numoctaves"@[0]); }
    }
    assert(lower("pathLength"@) =~= "pathlength"@);
}

proof fn attr_case_26()
    ensures
        svg_attr_case(lower("patternContentUnits"@)) == "patternContentUnits"@,
{
    reveal_strlit("patternContentUnits");
    reveal_strlit("attributename");
    reveal_strlit("attributetype");
    reveal_strlit("basefrequency");
    reveal_strlit("baseprofile");
    reveal_strlit("calcmode");
    reveal_strlit("clippathunits");
    reveal_strlit("diffuseconstant");
    reveal_strlit("edgemode");
    reveal_strlit("filterunits");
    reveal_strlit("glyphref");
    reveal_strlit("gradienttransform");
    reveal_strlit("gradientunits");
    reveal_strlit("kernelmatrix");
    reveal_strlit("kernelunitlength");
    reveal_strlit("keypoints");
    reveal_strlit("keysplines");
    reveal_strlit("keytimes");
    reveal_strlit("lengthadjust");
    reveal_strlit("limitingconeangle");
    reveal_strlit("markerheight");
    reveal_strlit("markerunits");
    reveal_strlit("markerwidth");
    reveal_strlit("maskcontentunits");
    reveal_strlit("maskunits");
    reveal_strlit("numoctaves");
    reveal_strlit("pathlength");
    reveal_strlit("patterncontentunits");
    assert(svg_attr_case("patterncontentunits"@) == "patternContentUnits"@) by {
        assert("patterncontentunits"@ != "attributename"@) by { assert("patterncontentunits"@.len() != "attributename"@.len()); }
        assert("patterncontentunits"@ != "attributetype"@) by { assert("patterncontentunits"@.len() != "attributetype"@.len()); }
        assert("patterncontentunits"@ != "basefrequency"@) by { assert("patterncontentunits"@.len() != "basefrequency"@.len()); }
        assert("patterncontentunits"@ != "baseprofile"@) by { assert("patterncontentunits"@.len() != "baseprofile"@.len()); }
        assert("patterncontentunits"@ != "calcmode"@) by { assert("patterncontentunits"@.len() != "calcmode"@.len()); }
        assert("patterncontentunits"@ != "clippathunits"@) by { assert("patterncontentunits"@.len() != "clippathunits"@.len()); }
        assert("patterncontentunits"@ != "diffuseconstant"@) by { assert("patterncontentunits"@.len() != "diffuseconstant"@.len()); }
        assert("patterncontentunits"@ != "edgemode"@) by { assert("patterncontentunits"@.len() != "edgemode"@.len()); }
        assert("patterncontentunits"@ != "filterunits"@) by { assert("patterncontentunits"@.len() != "filterunits"@.len()); }
        assert("patterncontentunits"@ != "glyphref"@) by { assert("patterncontentunits"@.len() != "glyphref"@.len()); }
        assert("patterncontentunits"@ != "gradienttransform"@) by { assert("patterncontentunits"@.len() != "gradienttransform"@.len()); }
        assert("patterncontentunits"@ != "gradientunits"@) by { assert("patterncontentunits"@.len() != "gradientunits"@.len()); }
        assert("patterncontentunits"@ != "kernelmatrix"@) by { assert("patterncontentunits"@.len() != "kernelmatrix"@.len()); }
        assert("patterncontentunits"@ != "kernelunitlength"@) by { assert("patterncontentunits"@.len() != "kernelunitlength"@.len()); }
        assert("patterncontentunits"@ != "keypoints"@) by { assert("patterncontentunits"@.len() != "keypoints"@.len()); }
        assert("patterncontentunits"@ != "keysplines"@) by { assert("patterncontentunits"@.len() != "keysplines"@.len()); }
        assert("patterncontentunits"@ != "keytimes"@) by { assert("patterncontentunits"@.len() != "keytimes"@.len()); }
        assert("patterncontentunits"@ != "lengthadjust"@) by { assert("patterncontentunits"@.len() != "lengthadjust"@.len()); }
        assert("patterncontentunits"@ != "limitingconeangle"@) by { assert("patterncontentunits"@.len() != "limitingconeangle"@.len()); }
        assert("patterncontentunits"@ != "markerheight"@) by { assert("patterncontentunits"@.len() != "markerheight"@.len()); }
        assert("patterncontentunits"@ != "markerunits"@) by { assert("patterncontentunits"@.len() != "markerunits"@.len()); }
        assert("patterncontentunits"@ != "markerwidth"@) by { assert("patterncontentunits"@.len() != "markerwidth"@.len()); }
        assert("patterncontentunits"@ != "maskcontentunits"@) by { assert("patterncontentunits"@.len() != "maskcontentunits"@.len()); }
        assert("patterncontentunits"@ != "maskunits"@) by { assert("patterncontentunits"@.len() != "maskunits"@.len()); }
        assert("patterncontentunits"@ != "numoctaves"@) by { assert("patterncontentunits"@.len() != "numoctaves"@.len()); }
        assert("patterncontentunits"@ != "pathlength"@) by { assert("patterncontentunits"@.len() != "pathlength"@.len()); }
    }
    assert(lower("patternContentUnits"@) =~= "patterncontentunits"@);
}

proof fn attr_case_27()
    ensures
        svg_attr_case(lower("patternTransform"@)) == "patternTransform"@,
{
    reveal_strlit("patternTransform");
    reveal_strlit("attributename");
    reveal_strlit("attributetype");
    reveal_strlit("basefrequency");
    reveal_strlit("baseprofile");
    reveal_strlit("calcmode");
    reveal_strlit("clippathunits");
    reveal_strlit("diffuseconstant");
    reveal_strlit("edgemode");
    reveal_strlit("filterunits");
    reveal_strlit("glyphref");
    reveal_strlit("gradienttransform");
    reveal_strlit("gradientunits");
    reveal_strlit("kernelmatrix");
    reveal_strlit("kernelunitlength");
    reveal_strlit("keypoints");
    reveal_strlit("keysplines");
    reveal_strlit("keytimes");
    reveal_strlit("lengthadjust");
    reveal_strlit("limitingconeangle");
    reveal_strlit("markerheight");
    reveal_strlit("markerunits");
    reveal_strlit("markerwidth");
    reveal_strlit("maskcontentunits");
    reveal_strlit("maskunits");
    reveal_strlit("numoctaves");
    reveal_strlit("pathlength");
    reveal_strlit("patterncontentunits");
    reveal_strlit("patterntransform");
    assert(svg_attr_case("patterntransform"@) == "patternTransform"@) by {
        assert("patterntransform"@ != "attributename"@) by { assert("patterntransform"@.len() != "attributename"@.len()); }
        assert("patterntransform"@ != "attributetype"@) by { assert("patterntransform"@.len() != "attributetype"@.len()); }
        assert("patterntransform"@ != "basefrequency"@) by { assert("patterntransform"@.len() != "basefrequency"@.len()); }
        assert("patterntransform"@ != "baseprofile"@) by { assert("patterntransform"@.len() != "baseprofile"@.len()); }
        assert("patterntransform"@ != "calcmode"@) by { assert("patterntransform"@.len() != "calcmode"@.len()); }
        assert("patterntransform"@ != "clippathunits"@) by { assert("patterntransform"@.len() != "clippathunits"@.len()); }
        assert("patterntransform"@ != "diffuseconstant"@) by { assert("patterntransform"@.len() != "diffuseconstant"@.len()); }
        assert("patterntransform"@ != "edgemode"@) by { assert("patterntransform"@.len() != "edgemode"@.len()); }
        assert("patterntransform"@ != "filterunits"@) by { assert("patterntransform"@.len() != "filterunits"@.len()); }
        assert("patterntransform"@ != "glyphref"@) by { assert("patterntransform"@.len() != "glyphref"@.len()); }
        assert("patterntransform"@ != "gradienttransform"@) by { assert("patterntransform"@.len() != "gradienttransform"@.len()); }
        assert("patterntransform"@ != "gradientunits"@) by { assert("patterntransform"@.len() != "gradientunits"@.len()); }
        assert("patterntransform"@ != "kernelmatrix"@) by { assert("patterntransform"@.len() != "kernelmatrix"@.len()); }
        assert("patterntransform"@ != "kernelunitlength"@) by { assert("patterntransform"@[0] != "kernelunitlength"@[0]); }
        assert("patterntransform"@ != "keypoints"@) by { assert("patterntransform"@.len() != "keypoints"@.len()); }
        assert("patterntransform"@ != "keysplines"@) by { assert("patterntransform"@.len() != "keysplines"@.len()); }
        assert("patterntransform"@ != "keytimes"@) by { assert("patterntransform"@.len() != "keytimes"@.len()); }
        assert("patterntransform"@ != "lengthadjust"@) by { assert("patterntransform"@.len() != "lengthadjust"@.len()); }
        assert("patterntransform"@ != "limitingconeangle"@) by { assert("patterntransform"@.len() != "limitingconeangle"@.len()); }
        assert("patterntransform"@ != "markerheight"@) by { assert("patterntransform"@.len() != "markerheight"@.len()); }
        assert("patterntransform"@ != "markerunits"@) by { assert("patterntransform"@.len() != "markerunits"@.len()); }
        assert("patterntransform"@ != "markerwidth"@) by { assert("patterntransform"@.len() != "markerwidth"@.len()); }
        assert("patterntransform"@ != "maskcontentunits"@) by { assert("patterntransform"@[0] != "maskcontentunits"@[0]); }
        assert("patterntransform"@ != "maskunits"@) by { assert("patterntransform"@.len() != "maskunits"@.len()); }
        assert("patterntransform"@ != "numoctaves"@) by { assert("patterntransform"@.len() != "numoctaves"@.len()); }
        assert("patterntransform"@ != "pathlength"@) by { assert("patterntransform"@.len() != "pathlength"@.len()); }
        assert("patterntransform"@ != "patterncontentunits"@) by { assert("patterntransform"@.len() != "patterncontentunits"@.len()); }
    }
    assert(lower("patternTransform"@) =~= "patterntransform"@);
}

proof fn attr_case_28()
    ensures
        svg_attr_case(lower("patternUnits"@)) == "patternUnits"@,
{
    reveal_strlit("patternUnits");
    reveal_strlit("attributename");
    reveal_strlit("attributetype");
    reveal_strlit("basefrequency");
    reveal_strlit("baseprofile");
    reveal_strlit("calcmode");
    reveal_strlit("clippathunits");
    reveal_strlit("diffuseconstant");
    reveal_strlit("edgemode");
    reveal_strlit("filterunits");
    reveal_strlit("glyphref");
    reveal_strlit("gradienttransform");
    reveal_strlit("gradientunits");
    reveal_strlit("kernelmatrix");
    reveal_strlit("kernelunitlength");
    reveal_strlit("keypoints");
    reveal_strlit("keysplines");
    reveal_strlit("keytimes");
    reveal_strlit("lengthadjust");
    reveal_strlit("limitingconeangle");
    reveal_strlit("markerheight");
    reveal_strlit("markerunits");
    reveal_strlit("markerwidth");
    reveal_strlit("maskcontentunits");
    reveal_strlit("maskunits");
    reveal_strlit("numoctaves");
    reveal_strlit("pathlength");
    reveal_strlit("patterncontentunits");
    reveal_strlit("patterntransform");
    reveal_strlit("patternunits");
    assert(svg_attr_case("patternunits"@) == "patternUnits"@) by {
        assert("patternunits"@ != "attributename"@) by { assert("patternunits"@.len() != "attributename"@.len()); }
        assert("patternunits"@ != "attributetype"@) by { assert("patternunits"@.len() != "attributetype"@.len()); }
        assert("patternunits"@ != "basefrequency"@) by { assert("patternunits"@.len() != "basefrequency"@.len()); }
        assert("patternunits"@ != "baseprofile"@) by { assert("patternunits"@.len() != "baseprofile"@.len()); }
        assert("patternunits"@ != "calcmode"@) by { assert("patternunits"@.len() != "calcmode"@.len()); }
        assert("patternunits"@ != "clippathunits"@) by { assert("patternunits"@.len() != "clippathunits"@.len()); }
        assert("patternunits"@ != "diffuseconstant"@) by { assert("patternunits"@.len() != "diffuseconstant"@.len()); }
        assert("patternunits"@ != "edgemode"@) by { assert("patternunits"@.len() != "edgemode"@.len()); }
        assert("patternunits"@ != "filterunits"@) by { assert("patternunits"@.len() != "filterunits"@.len()); }
        assert("patternunits"@ != "glyphref"@) by { assert("patternunits"@.len() != "glyphref"@.len()); }
        assert("patternunits"@ != "gradienttransform"@) by { assert("patternunits"@.len() != "gradienttransform"@.len()); }
        assert("patternunits"@ != "gradientunits"@) by { assert("patternunits"@.len() != "gradientunits"@.len()); }
        assert("patternunits"@ != "kernelmatrix"@) by { assert("patternunits"@[0] != "kernelmatrix"@[0]); }
        assert("patternunits"@ != "kernelunitlength"@) by { assert("patternunits"@.len() != "kernelunitlength"@.len()); }
        assert("patternunits"@ != "keypoints"@) by { assert("patternunits"@.len() != "keypoints"@.len()); }
        assert("patternunits"@ != "keysplines"@) by { assert("patternunits"@.len() != "keysplines"@.len()); }
        assert("patternunits"@ != "keytimes"@) by { assert("patternunits"@.len() != "keytimes"@.len()); }
        assert("patternunits"@ != "lengthadjust"@) by { assert("patternunits"@[0] != "lengthadjust"@[0]); }
        assert("patternunits"@ != "limitingconeangle"@) by { assert("patternunits"@.len() != "limitingconeangle"@.len()); }
        assert("patternunits"@ != "markerheight"@) by { assert("patternunits"@[0] != "markerheight"@[0]); }
        assert("patternunits"@ != "markerunits"@) by { assert("patternunits"@.len() != "markerunits"@.len()); }
        assert("patternunits"@ != "markerwidth"@) by { assert("patternunits"@.len() != "markerwidth"@.len()); }
        assert("patternunits"@ != "maskcontentunits"@) by { assert("patternunits"@.len() != "maskcontentunits"@.len()); }
        assert("patternunits"@ != "maskunits"@) by { assert("patternunits"@.len() != "maskunits"@.len()); }
        assert("patternunits"@ != "numoctaves"@) by { assert("patternunits"@.len() != "numoctaves"@.len()); }
        assert("patternunits"@ != "pathlength"@) by { assert("patternunits"@.len() != "pathlength"@.len()); }
        assert("patternunits"@ != "patterncontentunits"@) by { assert("patternunits"@.len() != "patterncontentunits"@.len()); }
        assert("patternunits"@ != "patterntransform"@) by { assert("patternunits"@.len() != "patterntransform"@.len()); }
    }
    assert(lower("patternUnits"@) =~= "patternunits"@);
}

proof fn attr_case_29()
    ensures
        svg_attr_case(lower("pointsAtX"@)) == "pointsAtX"@,
{
    reveal_strlit("pointsAtX");
    reveal_strlit("attributename");
    reveal_strlit("attributetype");
    reveal_strlit("basefrequency");
    reveal_strlit("baseprofile");
    reveal_strlit("calcmode");
    reveal_strlit("clippathunits");
    reveal_strlit("diffuseconstant");
    reveal_strlit("edgemode");
    reveal_strlit("filterunits");
    reveal_strlit("glyphref");
    reveal_strlit("gradienttransform");
    reveal_strlit("gradientunits");
    reveal_strlit("kernelmatrix");
    reveal_strlit("kernelunitlength");
    reveal_strlit("keypoints");
    reveal_strlit("keysplines");
    reveal_strlit("keytimes");
    reveal_strlit("lengthadjust");
    reveal_strlit("limitingconeangle");
    reveal_strlit("markerheight");
    reveal_strlit("markerunits");
    reveal_strlit("markerwidth");
    reveal_strlit("maskcontentunits");
    reveal_strlit("maskunits");
    reveal_strlit("numoctaves");
    reveal_strlit("pathlength");
    reveal_strlit("patterncontentunits");
    reveal_strlit("patterntransform");
    reveal_strlit("patternunits");
    reveal_strlit("pointsatx");
    assert(svg_attr_case("pointsatx"@) == "pointsAtX"@) by {
        assert("pointsatx"@ != "attributename"@) by { assert("pointsatx"@.len() != "attributename"@.len()); }
        assert("pointsatx"@ != "attributetype"@) by { assert("pointsatx"@.len() != "attributetype"@.len()); }
        assert("pointsatx"@ != "basefrequency"@) by { assert("pointsatx"@.len() != "basefrequency"@.len()); }
        assert("pointsatx"@ != "baseprofile"@) by { assert("pointsatx"@.len() != "baseprofile"@.len()); }
        assert("pointsatx"@ != "calcmode"@) by { assert("pointsatx"@.len() != "calcmode"@.len()); }
        assert("pointsatx"@ != "clippathunits"@) by { assert("pointsatx"@.len() != "clippathunits"@.len()); }
        assert("pointsatx"@ != "diffuseconstant"@) by { assert("pointsatx"@.len() != "diffuseconstant"@.len()); }
        assert("pointsatx"@ != "edgemode"@) by { assert("pointsatx"@.len() != "edgemode"@.len()); }
        assert("pointsatx"@ != "filterunits"@) by { assert("pointsatx"@.len() != "filterunits"@.len()); }
        assert("pointsatx"@ != "glyphref"@) by { assert("pointsatx"@.len() != "glyphref"@.len()); }
        assert("pointsatx"@ != "gradienttransform"@) by { assert("pointsatx"@.len() != "gradienttransform"@.len()); }
        assert("pointsatx"@ != "gradientunits"@) by { assert("pointsatx"@.len() != "gradientunits"@.len()); }
        assert("pointsatx"@ != "kernelmatrix"@) by { assert("pointsatx"@.len() != "kernelmatrix"@.len()); }
        assert("pointsatx"@ != "kernelunitlength"@) by { assert("pointsatx"@.len() != "kernelunitlength"@.len()); }
        assert("pointsatx"@ != "keypoints"@) by { assert("pointsatx"@[0] != "keypoints"@[0]); }
        assert("pointsatx"@ != "keysplines"@) by { assert("pointsatx"@.len() != "keysplines"@.len()); }
        assert("pointsatx"@ != "keytimes"@) by { assert("pointsatx"@.len() != "keytimes"@.len()); }
        assert("pointsatx"@ != "lengthadjust"@) by { assert("pointsatx"@.len() != "lengthadjust"@.len()); }
        assert("pointsatx"@ != "limitingconeangle"@) by { assert("pointsatx"@.len() != "limitingconeangle"@.len()); }
        assert("pointsatx"@ != "markerheight"@) by { assert("pointsatx"@.len() != "markerheight"@.len()); }
        assert("pointsatx"@ != "markerunits"@) by { assert("pointsatx"@.len() != "markerunits"@.len()); }
        assert("pointsatx"@ != "markerwidth"@) by { assert("pointsatx"@.len() != "markerwidth"@.len()); }
        assert("pointsatx"@ != "maskcontentunits"@) by { assert("pointsatx"@.len() != "maskcontentunits"@.len()); }
        assert("pointsatx"@ != "maskunits"@) by { assert("pointsatx"@[0] != "maskunits"@[0]); }
        assert("pointsatx"@ != "numoctaves"@) by { assert("pointsatx"@.len() != "numoctaves"@.len()); }
        assert("pointsatx"@ != "pathlength"@) by { assert("pointsatx"@.len() != "pathlength"@.len()); }
        assert("pointsatx"@ != "patterncontentunits"@) by { assert("pointsatx"@.len() != "patterncontentunits"@.len()); }
        assert("pointsatx"@ != "patterntransform"@) by { assert("pointsatx"@.len() != "patterntransform"@.len()); }
        assert("pointsatx"@ != "patternunits"@) by { assert("pointsatx"@.len() != "patternunits"@.len()); }
    }
    assert(lower("pointsAtX"@) =~= "pointsatx"@);
}

proof fn attr_case_30()
    ensures
        svg_attr_case(lower("pointsAtY"@)) == "pointsAtY"@,
{
    reveal_strlit("pointsAtY");
    reveal_strlit("attributename");
    reveal_strlit("attributetype");
    reveal_strlit("basefrequency");
    reveal_strlit("baseprofile");
    reveal_strlit("calcmode");
    reveal_strlit("clippathunits");
    reveal_strlit("diffuseconstant");
    reveal_strlit("edgemode");
    reveal_strlit("filterunits");
    reveal_strlit("glyphref");
    reveal_strlit("gradienttransform");
    reveal_strlit("gradientunits");
    reveal_strlit("kernelmatrix");
    reveal_strlit("kernelunitlength");
    reveal_strlit("keypoints");
    reveal_strlit("keysplines");
    reveal_strlit("keytimes");
    reveal_strlit("lengthadjust");
    reveal_strlit("limitingconeangle");
    reveal_strlit("markerheight");
    reveal_strlit("markerunits");
    reveal_strlit("markerwidth");
    reveal_strlit("maskcontentunits");
    reveal_strlit("maskunits");
    reveal_strlit("numoctaves");
    reveal_strlit("pathlength");
    reveal_strlit("patterncontentunits");
    reveal_strlit("patterntransform");
    reveal_strlit("patternunits");
    reveal_strlit("pointsatx");
    reveal_strlit("pointsaty");
    assert(svg_attr_case("pointsaty"@) == "pointsAtY"@) by {
        assert("pointsaty"@ != "attributename"@) by { assert("pointsaty"@.len() != "attributename"@.len()); }
        assert("pointsaty"@ != "attributetype"@) by { assert("pointsaty"@.len() != "attributetype"@.len()); }
        assert("pointsaty"@ != "basefrequency"@) by { assert("pointsaty"@.len() != "basefrequency"@.len()); }
        assert("pointsaty"@ != "baseprofile"@) by { assert("pointsaty"@.len() != "baseprofile"@.len()); }
        assert("pointsaty"@ != "calcmode"@) by { assert("pointsaty"@.len() != "calcmode"@.len()); }
        assert("pointsaty"@ != "clippathunits"@) by { assert("pointsaty"@.len() != "clippathunits"@.len()); }
        assert("pointsaty"@ != "diffuseconstant"@) by { assert("pointsaty"@.len() != "diffuseconstant"@.len()); }
        assert("pointsaty"@ != "edgemode"@) by { assert("pointsaty"@.len() != "edgemode"@.len()); }
        assert("pointsaty"@ != "filterunits"@) by { assert("pointsaty"@.len() != "filterunits"@.len()); }
        assert("pointsaty"@ != "glyphref"@) by { assert("pointsaty"@.len() != "glyphref"@.len()); }
        assert("pointsaty"@ != "gradienttransform"@) by { assert("pointsaty"@.len() != "gradienttransform"@.len()); }
        assert("pointsaty"@ != "gradientunits"@) by { assert("pointsaty"@.len() != "gradientunits"@.len()); }
        assert("pointsaty"@ != "kernelmatrix"@) by { assert("pointsaty"@.len() != "kernelmatrix"@.len()); }
        assert("pointsaty"@ != "kernelunitlength"@) by { assert("pointsaty"@.len() != "kernelunitlength"@.len()); }
        assert("pointsaty"@ != "keypoints"@) by { assert("pointsaty"@[0] != "keypoints"@[0]); }
        assert("pointsaty"@ != "keysplines"@) by { assert("pointsaty"@.len() != "keysplines"@.len()); }
        assert("pointsaty"@ != "keytimes"@) by { assert("pointsaty"@.len() != "keytimes"@.len()); }
        assert("pointsaty"@ != "lengthadjust"@) by { assert("pointsaty"@.len() != "lengthadjust"@.len()); }
        assert("pointsaty"@ != "limitingconeangle"@) by { assert("pointsaty"@.len() != "limitingconeangle"@.len()); }
        assert("pointsaty"@ != "markerheight"@) by { assert("pointsaty"@.len() != "markerheight"@.len()); }
        assert("pointsaty"@ != "markerunits"@) by { assert("pointsaty"@.len() != "markerunits"@.len()); }
        assert("pointsaty"@ != "markerwidth"@) by { assert("pointsaty"@.len() != "markerwidth"@.len()); }
        assert("pointsaty"@ != "maskcontentunits"@) by { assert("pointsaty"@.len() != "maskcontentunits"@.len()); }
        assert("pointsaty"@ != "maskunits"@) by { assert("pointsaty"@[0] != "maskunits"@[0]); }
        assert("pointsaty"@ != "numoctaves"@) by { assert("pointsaty"@.len() != "numoctaves"@.len()); }
        assert("pointsaty"@ != "pathlength"@) by { assert("pointsaty"@.len() != "pathlength"@.len()); }
        assert("pointsaty"@ != "patterncontentunits"@) by { assert("pointsaty"@.len() != "patterncontentunits"@.len()); }
        assert("pointsaty"@ != "patterntransform"@) by { assert("pointsaty"@.len() != "patterntransform"@.len()); }
        assert("pointsaty"@ != "patternunits"@) by { assert("pointsaty"@.len() != "patternunits"@.len()); }
        assert("pointsaty"@ != "pointsatx"@) by { assert("pointsaty"@[8] != "pointsatx"@[8]); }
    }
    assert(lower("pointsAtY"@) =~= "pointsaty"@);
}

proof fn attr_case_31()
    ensures
        svg_attr_case(lower("pointsAtZ"@)) == "pointsAtZ"@,
{
    reveal_strlit("pointsAtZ");
    reveal_strlit("attributename");
    reveal_strlit("attributetype");
    reveal_strlit("basefrequency");
    reveal_strlit("baseprofile");
    reveal_strlit("calcmode");
    reveal_strlit("clippathunits");
    reveal_strlit("diffuseconstant");
    reveal_strlit("edgemode");
    reveal_strlit("filterunits");
    reveal_strlit("glyphref");
    reveal_strlit("gradienttransform");
    reveal_strlit("gradientunits");
    reveal_strlit("kernelmatrix");
    reveal_strlit("kernelunitlength");
    reveal_strlit("keypoints");
    reveal_strlit("keysplines");
    reveal_strlit("keytimes");
    reveal_strlit("lengthadjust");
    reveal_strlit("limitingconeangle");
    reveal_strlit("markerheight");
    reveal_strlit("markerunits");
    reveal_strlit("markerwidth");
    reveal_strlit("maskcontentunits");
    reveal_strlit("maskunits");
    reveal_strlit("numoctaves");
    reveal_strlit("pathlength");
    reveal_strlit("patterncontentunits");
    reveal_strlit("patterntransform");
    reveal_strlit("patternunits");
    reveal_strlit("pointsatx");
    reveal_strlit("pointsaty");
    reveal_strlit("pointsatz");
    assert(svg_attr_case("pointsatz"@) == "pointsAtZ"@) by {
        assert("pointsatz"@ != "attributename"@) by { assert("pointsatz"@.len() != "attributename"@.len()); }
        assert("pointsatz"@ != "attributetype"@) by { assert("pointsatz"@.len() != "attributetype"@.len()); }
        assert("pointsatz"@ != "basefrequency"@) by { assert("pointsatz"@.len() != "basefrequency"@.len()); }
        assert("pointsatz"@ != "baseprofile"@) by { assert("pointsatz"@.len() != "baseprofile"@.len()); }
        assert("pointsatz"@ != "calcmode"@) by { assert("pointsatz"@.len() != "calcmode"@.len()); }
        assert("pointsatz"@ != "clippathunits"@) by { assert("pointsatz"@.len() != "clippathunits"@.len()); }
        assert("pointsatz"@ != "diffuseconstant"@) by { assert("pointsatz"@.len() != "diffuseconstant"@.len()); }
        assert("pointsatz"@ != "edgemode"@) by { assert("pointsatz"@.len() != "edgemode"@.len()); }
        assert("pointsatz"@ != "filterunits"@) by { assert("pointsatz"@.len() != "filterunits"@.len()); }
        assert("pointsatz"@ != "glyphref"@) by { assert("pointsatz"@.len() != "glyphref"@.len()); }
        assert("pointsatz"@ != "gradienttransform"@) by { assert("pointsatz"@.len() != "gradienttransform"@.len()); }
        assert("pointsatz"@ != "gradientunits"@) by { assert("pointsatz"@.len() != "gradientunits"@.len()); }
        assert("pointsatz"@ != "kernelmatrix"@) by { assert("pointsatz"@.len() != "kernelmatrix"@.len()); }
        assert("pointsatz"@ != "kernelunitlength"@) by { assert("pointsatz"@.len() != "kernelunitlength"@.len()); }
        assert("pointsatz"@ != "keypoints"@) by { assert("pointsatz"@[0] != "keypoints"@[0]); }
        assert("pointsatz"@ != "keysplines"@) by { assert("pointsatz"@.len() != "keysplines"@.len()); }
        assert("pointsatz"@ != "keytimes"@) by { assert("pointsatz"@.len() != "keytimes"@.len()); }
        assert("pointsatz"@ != "lengthadjust"@) by { assert("pointsatz"@.len() != "lengthadjust"@.len()); }
        assert("pointsatz"@ != "limitingconeangle"@) by { assert("pointsatz"@.len() != "limitingconeangle"@.len()); }
        assert("pointsatz"@ != "markerheight"@) by { assert("pointsatz"@.len() != "markerheight"@.len()); }
        assert("pointsatz"@ != "markerunits"@) by { assert("pointsatz"@.len() != "markerunits"@.len()); }
        assert("pointsatz"@ != "markerwidth"@) by { assert("pointsatz"@.len() != "markerwidth"@.len()); }
        assert("pointsatz"@ != "maskcontentunits"@) by { assert("pointsatz"@.len() != "maskcontentunits"@.len()); }
        assert("pointsatz"@ != "maskunits"@) by { assert("pointsatz"@[0] != "maskunits"@[0]); }
        assert("pointsatz"@ != "numoctaves"@) by { assert("pointsatz"@.len() != "numoctaves"@.len()); }
        assert("pointsatz"@ != "pathlength"@) by { assert("pointsatz"@.len() != "pathlength"@.len()); }
        assert("pointsatz"@ != "patterncontentunits"@) by { assert("pointsatz"@.len() != "patterncontentunits"@.len()); }
        assert("pointsatz"@ != "patterntransform"@) by { assert("pointsatz"@.len() != "patterntransform"@.len()); }
        assert("pointsatz"@ != "patternunits"@) by { assert("pointsatz"@.len() != "patternunits"@.len()); }
        assert("pointsatz"@ != "pointsatx"@) by { assert("pointsatz"@[8] != "pointsatx"@[8]); }
        assert("pointsatz"@ != "pointsaty"@) by { assert("pointsatz"@[8] != "pointsaty"@[8]); }
    }
    assert(lower("pointsAtZ"@) =~= "pointsatz"@);
}

proof fn attr_case_32()
    ensures
        svg_attr_case(lower("preserveAlpha"@)) == "preserveAlpha"@,
{
    reveal_strlit("preserveAlpha");
    reveal_strlit("attributename");
    reveal_strlit("attributetype");
    reveal_strlit("basefrequency");
    reveal_strlit("baseprofile");
    reveal_strlit("calcmode");
    reveal_strlit("clippathunits");
    reveal_strlit("diffuseconstant");
    reveal_strlit("edgemode");
    reveal_strlit("filterunits");
    reveal_strlit("glyphref");
    reveal_strlit("gradienttransform");
    reveal_strlit("gradientunits");
    reveal_strlit("kernelmatrix");
    reveal_strlit("kernelunitlength");
    reveal_strlit("keypoints");
    reveal_strlit("keysplines");
    reveal_strlit("keytimes");
    reveal_strlit("lengthadjust");
    reveal_strlit("limitingconeangle");
    reveal_strlit("markerheight");
    reveal_strlit("markerunits");
    reveal_strlit("markerwidth");
    reveal_strlit("maskcontentunits");
    reveal_strlit("maskunits");
    reveal_strlit("numoctaves");
    reveal_strlit("pathlength");
    reveal_strlit("patterncontentunits");
    reveal_strlit("patterntransform");
    reveal_strlit("patternunits");
    reveal_strlit("pointsatx");
    reveal_strlit("pointsaty");
    reveal_strlit("pointsatz");
    reveal_strlit("preservealpha");
    assert(svg_attr_case("preservealpha"@) == "preserveAlpha"@) by {
        assert("preservealpha"@ != "attributename"@) by { assert("preservealpha"@[0] != "attributename"@[0]); }
        assert("preservealpha"@ != "attributetype"@) by { assert("preservealpha"@[0] != "attributetype"@[0]); }
        assert("preservealpha"@ != "basefrequency"@) by { assert("preservealpha"@[0] != "basefrequency"@[0]); }
        assert("preservealpha"@ != "baseprofile"@) by { assert("preservealpha"@.len() != "baseprofile"@.len()); }
        assert("preservealpha"@ != "calcmode"@) by { assert("preservealpha"@.len() != "calcmode"@.len()); }
        assert("preservealpha"@ != "clippathunits"@) by { assert("preservealpha"@[0] != "clippathunits"@[0]); }
        assert("preservealpha"@ != "diffuseconstant"@) by { assert("preservealpha"@.len() != "diffuseconstant"@.len()); }
        assert("preservealpha"@ != "edgemode"@) by { assert("preservealpha"@.len() != "edgemode"@.len()); }
        assert("preservealpha"@ != "filterunits"@) by { assert("preservealpha"@.len() != "filterunits"@.len()); }
        assert("preservealpha"@ != "glyphref"@) by { assert("preservealpha"@.len() != "glyphref"@.len()); }
        assert("preservealpha"@ != "gradienttransform"@) by { assert("preservealpha"@.len() != "gradienttransform"@.len()); }
        assert("preservealpha"@ != "gradientunits"@) by { assert("preservealpha"@[0] != "gradientunits"@[0]); }
        assert("preservealpha"@ != "kernelmatrix"@) by { assert("preservealpha"@.len() != "kernelmatrix"@.len()); }
        assert("preservealpha"@ != "kernelunitlength"@) by { assert("preservealpha"@.len() != "kernelunitlength"@.len()); }
        assert("preservealpha"@ != "keypoints"@) by { assert("preservealpha"@.len() != "keypoints"@.len()); }
        assert("preservealpha"@ != "keysplines"@) by { assert("preservealpha"@.len() != "keysplines"@.len()); }
        assert("preservealpha"@ != "keytimes"@) by { assert("preservealpha"@.len() != "keytimes"@.len()); }
        assert("preservealpha"@ != "lengthadjust"@) by { assert("preservealpha"@.len() != "lengthadjust"@.len()); }
        assert("preservealpha"@ != "limitingconeangle"@) by { assert("preservealpha"@.len() != "limitingconeangle"@.len()); }
        assert("preservealpha"@ != "markerheight"@) by { assert("preservealpha"@.len() != "markerheight"@.len()); }
        assert("preservealpha"@ != "markerunits"@) by { assert("preservealpha"@.len() != "markerunits"@.len()); }
        assert("preservealpha"@ != "markerwidth"@) by { assert("preservealpha"@.len() != "markerwidth"@.len()); }
        assert("preservealpha"@ != "maskcontentunits"@) by { assert("preservealpha"@.len() != "maskcontentunits"@.len()); }
        assert("preservealpha"@ != "maskunits"@) by { assert("preservealpha"@.len() != "maskunits"@.len()); }
        assert("preservealpha"@ != "numoctaves"@) by { assert("preservealpha"@.len() != "numoctaves"@.len()); }
        assert("preservealpha"@ != "pathlength"@) by { assert("preservealpha"@.len() != "pathlength"@.len()); }
        assert("preservealpha"@ != "patterncontentunits"@) by { assert("preservealpha"@.len() != "patterncontentunits"@.len()); }
        assert("preservealpha"@ != "patterntransform"@) by { assert("preservealpha"@.len() != "patterntransform"@.len()); }
        assert("preservealpha"@ != "patternunits"@) by { assert("preservealpha"@.len() != "patternunits"@.len()); }
        assert("preservealpha"@ != "pointsatx"@) by { assert("preservealpha"@.len() != "pointsatx"@.len()); }
        assert("preservealpha"@ != "pointsaty"@) by { assert("preservealpha"@.len() != "pointsaty"@.len()); }
        assert("preservealpha"@ != "pointsatz"@) by { assert("preservealpha"@.len() != "pointsatz"@.len()); }
    }
    assert(lower("preserveAlpha"@) =~= "preservealpha"@);
}

proof fn attr_case_33()
    ensures
        svg_attr_case(lower("preserveAspectRatio"@)) == "preserveAspectRatio"@,
{
    reveal_strlit("preserveAspectRatio");
    reveal_strlit("attributename");
    reveal_strlit("attributetype");
    reveal_strlit("basefrequency");
    reveal_strlit("baseprofile");
    reveal_strlit("calcmode");
    reveal_strlit("clippathunits");
    reveal_strlit("diffuseconstant");
    reveal_strlit("edgemode");
    reveal_strlit("filterunits");
    reveal_strlit("glyphref");
    reveal_strlit("gradienttransform");
    reveal_strlit("gradientunits");
    reveal_strlit("kernelmatrix");
    reveal_strlit("kernelunitlength");
    reveal_strlit("keypoints");
    reveal_strlit("keysplines");
    reveal_strlit("keytimes");
    reveal_strlit("lengthadjust");
    reveal_strlit("limitingconeangle");
    reveal_strlit("markerheight");
    reveal_strlit("markerunits");
    reveal_strlit("markerwidth");
    reveal_strlit("maskcontentunits");
    reveal_strlit("maskunits");
    reveal_strlit("numoctaves");
    reveal_strlit("pathlength");
    reveal_strlit("patterncontentunits");
    reveal_strlit("patterntransform");
    reveal_strlit("patternunits");
    reveal_strlit("pointsatx");
    reveal_strlit("pointsaty");
    reveal_strlit("pointsatz");
    reveal_strlit("preservealpha");
    reveal_strlit("preserveaspectratio");
    assert(svg_attr_case("preserveaspectratio"@) == "preserveAspectRatio"@) by {
        assert("preserveaspectratio"@ != "attributename"@) by { assert("preserveaspectratio"@.len() != "attributename"@.len()); }
        assert("preserveaspectratio"@ != "attributetype"@) by { assert("preserveaspectratio"@.len() != "attributetype"@.len()); }
        assert("preserveaspectratio"@ != "basefrequency"@) by { assert("preserveaspectratio"@.len() != "basefrequency"@.len()); }
        assert("preserveaspectratio"@ != "baseprofile"@) by { assert("preserveaspectratio"@.len() != "baseprofile"@.len()); }
        assert("preserveaspectratio"@ != "calcmode"@) by { assert("preserveaspectratio"@.len() != "calcmode"@.len()); }
        assert("preserveaspectratio"@ != "clippathunits"@) by { assert("preserveaspectratio"@.len() != "clippathunits"@.len()); }
        assert("preserveaspectratio"@ != "diffuseconstant"@) by { assert("preserveaspectratio"@.len() != "diffuseconstant"@.len()); }
        assert("preserveaspectratio"@ != "edgemode"@) by { assert("preserveaspectratio"@.len() != "edgemode"@.len()); }
        assert("preserveaspectratio"@ != "filterunits"@) by { assert("preserveaspectratio"@.len() != "filterunits"@.len()); }
        assert("preserveaspectratio"@ != "glyphref"@) by { assert("preserveaspectratio"@.len() != "glyphref"@.len()); }
        assert("preserveaspectratio"@ != "gradienttransform"@) by { assert("preserveaspectratio"@.len() != "gradienttransform"@.len()); }
        assert("preserveaspectratio"@ != "gradientunits"@) by { assert("preserveaspectratio"@.len() != "gradientunits"@.len()); }
        assert("preserveaspectratio"@ != "kernelmatrix"@) by { assert("preserveaspectratio"@.len() != "kernelmatrix"@.len()); }
        assert("preserveaspectratio"@ != "kernelunitlength"@) by { assert("preserveaspectratio"@.len() != "kernelunitlength"@.len()); }
        assert("preserveaspectratio"@ != "keypoints"@) by { assert("preserveaspectratio"@.len() != "keypoints"@.len()); }
        assert("preserveaspectratio"@ != "keysplines"@) by { assert("preserveaspectratio"@.len() != "keysplines"@.len()); }
        assert("preserveaspectratio"@ != "keytimes"@) by { assert("preserveaspectratio"@.len() != "keytimes"@.len()); }
        assert("preserveaspectratio"@ != "lengthadjust"@) by { assert("preserveaspectratio"@.len() != "lengthadjust"@.len()); }
        assert("preserveaspectratio"@ != "limitingconeangle"@) by { assert("preserveaspectratio"@.len() != "limitingconeangle"@.len()); }
        assert("preserveaspectratio"@ != "markerheight"@) by { assert("preserveaspectratio"@.len() != "markerheight"@.len()); }
        assert("preserveaspectratio"@ != "markerunits"@) by { assert("preserveaspectratio"@.len() != "markerunits"@.len()); }
        assert("preserveaspectratio"@ != "markerwidth"@) by { assert("preserveaspectratio"@.len() != "markerwidth"@.len()); }
        assert("preserveaspectratio"@ != "maskcontentunits"@) by { assert("preserveaspectratio"@.len() != "maskcontentunits"@.len()); }
        assert("preserveaspectratio"@ != "maskunits"@) by { assert("preserveaspectratio"@.len() != "maskunits"@.len()); }
        assert("preserveaspectratio"@ != "numoctaves"@) by { assert("preserveaspectratio"@.len() != "numoctaves"@.len()); }
        assert("preserveaspectratio"@ != "pathlength"@) by { assert("preserveaspectratio"@.len() != "pathlength"@.len()); }
        assert("preserveaspectratio"@ != "patterncontentunits"@) by { assert("preserveaspectratio"@[1] != "patterncontentunits"@[1]); }
        assert("preserveaspectratio"@ != "patterntransform"@) by { assert("preserveaspectratio"@.len() != "patterntransform"@.len()); }
        assert("preserveaspectratio"@ != "patternunits"@) by { assert("preserveaspectratio"@.len() != "patternunits"@.len()); }
        assert("preserveaspectratio"@ != "pointsatx"@) by { assert("preserveaspectratio"@.len() != "pointsatx"@.len()); }
        assert("preserveaspectratio"@ != "pointsaty"@) by { assert("preserveaspectratio"@.len() != "pointsaty"@.len()); }
        assert("preserveaspectratio"@ != "pointsatz"@) by { assert("preserveaspectratio"@.len() != "pointsatz"@.len()); }
        assert("preserveaspectratio"@ != "preservealpha"@) by { assert("preserveaspectratio"@.len() != "preservealpha"@.len()); }
    }
    assert(lower("preserveAspectRatio"@) =~= "preserveaspectratio"@);
}

proof fn attr_case_34()
    ensures
        svg_attr_case(lower("primitiveUnits"@)) == "primitiveUnits"@,
{
    reveal_strlit("primitiveUnits");
    reveal_strlit("attributename");
    reveal_strlit("attributetype");
    reveal_strlit("basefrequency");
    reveal_strlit("baseprofile");
    reveal_strlit("calcmode");
    reveal_strlit("clippathunits");
    reveal_strlit("diffuseconstant");
    reveal_strlit("edgemode");
    reveal_strlit("filterunits");
    reveal_strlit("glyphref");
    reveal_strlit("gradienttransform");
    reveal_strlit("gradientunits");
    reveal_strlit("kernelmatrix");
    reveal_strlit("kernelunitlength");
    reveal_strlit("keypoints");
    reveal_strlit("keysplines");
    reveal_strlit("keytimes");
    reveal_strlit("lengthadjust");
    reveal_strlit("limitingconeangle");
    reveal_strlit("markerheight");
    reveal_strlit("markerunits");
    reveal_strlit("markerwidth");
    reveal_strlit("maskcontentunits");
    reveal_strlit("maskunits");
    reveal_strlit("numoctaves");
    reveal_strlit("pathlength");
    reveal_strlit("patterncontentunits");
    reveal_strlit("patterntransform");
    reveal_strlit("patternunits");
    reveal_strlit("pointsatx");
    reveal_strlit("pointsaty");
    reveal_strlit("pointsatz");
    reveal_strlit("preservealpha");
    reveal_strlit("preserveaspectratio");
    reveal_strlit("primitiveunits");
    assert(svg_attr_case("primitiveunits"@) == "primitiveUnits"@) by {
        assert("primitiveunits"@ != "attributename"@) by { assert("primitiveunits"@.len() != "attributename"@.len()); }
        assert("primitiveunits"@ != "attributetype"@) by { assert("primitiveunits"@.len() != "attributetype"@.len()); }
        assert("primitiveunits"@ != "basefrequency"@) by { assert("primitiveunits"@.len() != "basefrequency"@.len()); }
        assert("primitiveunits"@ != "baseprofile"@) by { assert("primitiveunits"@.len() != "baseprofile"@.len()); }
        assert("primitiveunits"@ != "calcmode"@) by { assert("primitiveunits"@.len() != "calcmode"@.len()); }
        assert("primitiveunits"@ != "clippathunits"@) by { assert("primitiveunits"@.len() != "clippathunits"@.len()); }
        assert("primitiveunits"@ != "diffuseconstant"@) by { assert("primitiveunits"@.len() != "diffuseconstant"@.len()); }
        assert("primitiveunits"@ != "edgemode"@) by { assert("primitiveunits"@.len() != "edgemode"@.len()); }
        assert("primitiveunits"@ != "filterunits"@) by { assert("primitiveunits"@.len() != "filterunits"@.len()); }
        assert("primitiveunits"@ != "glyphref"@) by { assert("primitiveunits"@.len() != "glyphref"@.len()); }
        assert("primitiveunits"@ != "gradienttransform"@) by { assert("primitiveunits"@.len() != "gradienttransform"@.len()); }
        assert("primitiveunits"@ != "gradientunits"@) by { assert("primitiveunits"@.len() != "gradientunits"@.len()); }
        assert("primitiveunits"@ != "kernelmatrix"@) by { assert("primitiveunits"@.len() != "kernelmatrix"@.len()); }
        assert("primitiveunits"@ != "kernelunitlength"@) by { assert("primitiveunits"@.len() != "kernelunitlength"@.len()); }
        assert("primitiveunits"@ != "keypoints"@) by { assert("primitiveunits"@.len() != "keypoints"@.len()); }
        assert("primitiveunits"@ != "keysplines"@) by { assert("primitiveunits"@.len() != "keysplines"@.len()); }
        assert("primitiveunits"@ != "keytimes"@) by { assert("primitiveunits"@.len() != "keytimes"@.len()); }
        assert("primitiveunits"@ != "lengthadjust"@) by { assert("primitiveunits"@.len() != "lengthadjust"@.len()); }
        assert("primitiveunits"@ != "limitingconeangle"@) by { assert("primitiveunits"@.len() != "limitingconeangle"@.len()); }
        assert("primitiveunits"@ != "markerheight"@) by { assert("primitiveunits"@.len() != "markerheight"@.len()); }
        assert("primitiveunits"@ != "markerunits"@) by { assert("primitiveunits"@.len() != "markerunits"@.len()); }
        assert("primitiveunits"@ != "markerwidth"@) by { assert("primitiveunits"@.len() != "markerwidth"@.len()); }
        assert("primitiveunits"@ != "maskcontentunits"@) by { assert("primitiveunits"@.len() != "maskcontentunits"@.len()); }
        assert("primitiveunits"@ != "maskunits"@) by { assert("primitiveunits"@.len() != "maskunits"@.len()); }
        assert("primitiveunits"@ != "numoctaves"@) by { assert("primitiveunits"@.len() != "numoctaves"@.len()); }
        assert("primitiveunits"@ != "pathlength"@) by { assert("primitiveunits"@.len() != "pathlength"@.len()); }
        assert("primitiveunits"@ != "patterncontentunits"@) by { assert("primitiveunits"@.len() != "patterncontentunits"@.len()); }
        assert("primitiveunits"@ != "patterntransform"@) by { assert("primitiveunits"@.len() != "patterntransform"@.len()); }
        assert("primitiveunits"@ != "patternunits"@) by { assert("primitiveunits"@.len() != "patternunits"@.len()); }
        assert("primitiveunits"@ != "pointsatx"@) by { assert("primitiveunits"@.len() != "pointsatx"@.len()); }
        assert("primitiveunits"@ != "pointsaty"@) by { assert("primitiveunits"@.len() != "pointsaty"@.len()); }
        assert("primitiveunits"@ != "pointsatz"@) by { assert("primitiveunits"@.len() != "pointsatz"@.len()); }
        assert("primitiveunits"@ != "preservealpha"@) by { assert("primitiveunits"@.len() != "preservealpha"@.len()); }
        assert("primitiveunits"@ != "preserveaspectratio"@) by { assert("primitiveunits"@.len() != "preserveaspectratio"@.len()); }
    }
    assert(lower("primitiveUnits"@) =~= "primitiveunits"@);
}

proof fn attr_case_35()
    ensures
        svg_attr_case(lower("refX"@)) == "refX"@,
{
    reveal_strlit("refX");
    reveal_strlit("attributename");
    reveal_strlit("attributetype");
    reveal_strlit("basefrequency");
    reveal_strlit("baseprofile");
    reveal_strlit("calcmode");
    reveal_strlit("clippathunits");
    reveal_strlit("diffuseconstant");
    reveal_strlit("edgemode");
    reveal_strlit("filterunits");
    reveal_strlit("glyphref");
    reveal_strlit("gradienttransform");
    reveal_strlit("gradientunits");
    reveal_strlit("kernelmatrix");
    reveal_strlit("kernelunitlength");
    reveal_strlit("keypoints");
    reveal_strlit("keysplines");
    reveal_strlit("keytimes");
    reveal_strlit("lengthadjust");
    reveal_strlit("limitingconeangle");
    reveal_strlit("markerheight");
    reveal_strlit("markerunits");
    reveal_strlit("markerwidth");
    reveal_strlit("maskcontentunits");
    reveal_strlit("maskunits");
    reveal_strlit("numoctaves");
    reveal_strlit("pathlength");
    reveal_strlit("patterncontentunits");
    reveal_strlit("patterntransform");
    reveal_strlit("patternunits");
    reveal_strlit("pointsatx");
    reveal_strlit("pointsaty");
    reveal_strlit("pointsatz");
    reveal_strlit("preservealpha");
    reveal_strlit("preserveaspectratio");
    reveal_strlit("primitiveunits");
    reveal_strlit("refx");
    assert(svg_attr_case("refx"@) == "refX"@) by {
        assert("refx"@ != "attributename"@) by { assert("refx"@.len() != "attributename"@.len()); }
        assert("refx"@ != "attributetype"@) by { assert("refx"@.len() != "attributetype"@.len()); }
        assert("refx"@ != "basefrequency"@) by { assert("refx"@.len() != "basefrequency"@.len()); }
        assert("refx"@ != "baseprofile"@) by { assert("refx"@.len() != "baseprofile"@.len()); }
        assert("refx"@ != "calcmode"@) by { assert("refx"@.len() != "calcmode"@.len()); }
        assert("refx"@ != "clippathunits"@) by { assert("refx"@.len() != "clippathunits"@.len()); }
        assert("refx"@ != "diffuseconstant"@) by { assert("refx"@.len() != "diffuseconstant"@.len()); }
        assert("refx"@ != "edgemode"@) by { assert("refx"@.len() != "edgemode"@.len()); }
        assert("refx"@ != "filterunits"@) by { assert("refx"@.len() != "filterunits"@.len()); }
        assert("refx"@ != "glyphref"@) by { assert("refx"@.len() != "glyphref"@.len()); }
        assert("refx"@ != "gradienttransform"@) by { assert("refx"@.len() != "gradienttransform"@.len()); }
        assert("refx"@ != "gradientunits"@) by { assert("refx"@.len() != "gradientunits"@.len()); }
        assert("refx"@ != "kernelmatrix"@) by { assert("refx"@.len() != "kernelmatrix"@.len()); }
        assert("refx"@ != "kernelunitlength"@) by { assert("refx"@.len() != "kernelunitlength"@.len()); }
        assert("refx"@ != "keypoints"@) by { assert("refx"@.len() != "keypoints"@.len()); }
        assert("refx"@ != "keysplines"@) by { assert("refx"@.len() != "keysplines"@.len()); }
        assert("refx"@ != "keytimes"@) by { assert("refx"@.len() != "keytimes"@.len()); }
        assert("refx"@ != "lengthadjust"@) by { assert("refx"@.len() != "lengthadjust"@.len()); }
        assert("refx"@ != "limitingconeangle"@) by { assert("refx"@.len() != "limitingconeangle"@.len()); }
        assert("refx"@ != "markerheight"@) by { assert("refx"@.len() != "markerheight"@.len()); }
        assert("refx"@ != "markerunits"@) by { assert("refx"@.len() != "markerunits"@.len()); }
        assert("refx"@ != "markerwidth"@) by { assert("refx"@.len() != "markerwidth"@.len()); }
        assert("refx"@ != "maskcontentunits"@) by { assert("refx"@.len() != "maskcontentunits"@.len()); }
        assert("refx"@ != "maskunits"@) by { assert("refx"@.len() != "maskunits"@.len()); }
        assert("refx"@ != "numoctaves"@) by { assert("refx"@.len() != "numoctaves"@.len()); }
        assert("refx"@ != "pathlength"@) by { assert("refx"@.len() != "pathlength"@.len()); }
        assert("refx"@ != "patterncontentunits"@) by { assert("refx"@.len() != "patterncontentunits"@.len()); }
        assert("refx"@ != "patterntransform"@) by { assert("refx"@.len() != "patterntransform"@.len()); }
        assert("refx"@ != "patternunits"@) by { assert("refx"@.len() != "patternunits"@.len()); }
        assert("refx"@ != "pointsatx"@) by { assert("refx"@.len() != "pointsatx"@.len()); }
        assert("refx"@ != "pointsaty"@) by { assert("refx"@.len() != "pointsaty"@.len()); }
        assert("refx"@ != "pointsatz"@) by { assert("refx"@.len() != "pointsatz"@.len()); }
        assert("refx"@ != "preservealpha"@) by { assert("refx"@.len() != "preservealpha"@.len()); }
        assert("refx"@ != "preserveaspectratio"@) by { assert("refx"@.len() != "preserveaspectratio"@.len()); }
        assert("refx"@ != "primitiveunits"@) by { assert("refx"@.len() != "primitiveunits"@.len()); }
    }
    assert(lower("refX"@) =~= "refx"@);
}

proof fn attr_case_36()
    ensures
        svg_attr_case(lower("refY"@)) == "refY"@,
{
    reveal_strlit("refY");
    reveal_strlit("attributename");
    reveal_strlit("attributetype");
    reveal_strlit("basefrequency");
    reveal_strlit("baseprofile");
    reveal_strlit("calcmode");
    reveal_strlit("clippathunits");
    reveal_strlit("diffuseconstant");
    reveal_strlit("edgemode");
    reveal_strlit("filterunits");
    reveal_strlit("glyphref");
    reveal_strlit("gradienttransform");
    reveal_strlit("gradientunits");
    reveal_strlit("kernelmatrix");
    reveal_strlit("kernelunitlength");
    reveal_strlit("keypoints");
    reveal_strlit("keysplines");
    reveal_strlit("keytimes");
    reveal_strlit("lengthadjust");
    reveal_strlit("limitingconeangle");
    reveal_strlit("markerheight");
    reveal_strlit("markerunits");
    reveal_strlit("markerwidth");
    reveal_strlit("maskcontentunits");
    reveal_strlit("maskunits");
    reveal_strlit("numoctaves");
    reveal_strlit("pathlength");
    reveal_strlit("patterncontentunits");
    reveal_strlit("patterntransform");
    reveal_strlit("patternunits");
    reveal_strlit("pointsatx");
    reveal_strlit("pointsaty");
    reveal_strlit("pointsatz");
    reveal_strlit("preservealpha");
    reveal_strlit("preserveaspectratio");
    reveal_strlit("primitiveunits");
    reveal_strlit("refx");
    reveal_strlit("refy");
    assert(svg_attr_case("refy"@) == "refY"@) by {
        assert("refy"@ != "attributename"@) by { assert("refy"@.len() != "attributename"@.len()); }
        assert("refy"@ != "attributetype"@) by { assert("refy"@.len() != "attributetype"@.len()); }
        assert("refy"@ != "basefrequency"@) by { assert("refy"@.len() != "basefrequency"@.len()); }
        assert("refy"@ != "baseprofile"@) by { assert("refy"@.len() != "baseprofile"@.len()); }
        assert("refy"@ != "calcmode"@) by { assert("refy"@.len() != "calcmode"@.len()); }
        assert("refy"@ != "clippathunits"@) by { assert("refy"@.len() != "clippathunits"@.len()); }
        assert("refy"@ != "diffuseconstant"@) by { assert("refy"@.len() != "diffuseconstant"@.len()); }
        assert("refy"@ != "edgemode"@) by { assert("refy"@.len() != "edgemode"@.len()); }
        assert("refy"@ != "filterunits"@) by { assert("refy"@.len() != "filterunits"@.len()); }
        assert("refy"@ != "glyphref"@) by { assert("refy"@.len() != "glyphref"@.len()); }
        assert("refy"@ != "gradienttransform"@) by { assert("refy"@.len() != "gradienttransform"@.len()); }
        assert("refy"@ != "gradientunits"@) by { assert("refy"@.len() != "gradientunits"@.len()); }
        assert("refy"@ != "kernelmatrix"@) by { assert("refy"@.len() != "kernelmatrix"@.len()); }
        assert("refy"@ != "kernelunitlength"@) by { assert("refy"@.len() != "kernelunitlength"@.len()); }
        assert("refy"@ != "keypoints"@) by { assert("refy"@.len() != "keypoints"@.len()); }
        assert("refy"@ != "keysplines"@) by { assert("refy"@.len() != "keysplines"@.len()); }
        assert("refy"@ != "keytimes"@) by { assert("refy"@.len() != "keytimes"@.len()); }
        assert("refy"@ != "lengthadjust"@) by { assert("refy"@.len() != "lengthadjust"@.len()); }
        assert("refy"@ != "limitingconeangle"@) by { assert("refy"@.len() != "limitingconeangle"@.len()); }
        assert("refy"@ != "markerheight"@) by { assert("refy"@.len() != "markerheight"@.len()); }
        assert("refy"@ != "markerunits"@) by { assert("refy"@.len() != "markerunits"@.len()); }
        assert("refy"@ != "markerwidth"@) by { assert("refy"@.len() != "markerwidth"@.len()); }
        assert("refy"@ != "maskcontentunits"@) by { assert("refy"@.len() != "maskcontentunits"@.len()); }
        assert("refy"@ != "maskunits"@) by { assert("refy"@.len() != "maskunits"@.len()); }
        assert("refy"@ != "numoctaves"@) by { assert("refy"@.len() != "numoctaves"@.len()); }
        assert("refy"@ != "pathlength"@) by { assert("refy"@.len() != "pathlength"@.len()); }
        assert("refy"@ != "patterncontentunits"@) by { assert("refy"@.len() != "patterncontentunits"@.len()); }
        assert("refy"@ != "patterntransform"@) by { assert("refy"@.len() != "patterntransform"@.len()); }
        assert("refy"@ != "patternunits"@) by { assert("refy"@.len() != "patternunits"@.len()); }
        assert("refy"@ != "pointsatx"@) by { assert("refy"@.len() != "pointsatx"@.len()); }
        assert("refy"@ != "pointsaty"@) by { assert("refy"@.len() != "pointsaty"@.len()); }
        assert("refy"@ != "pointsatz"@) by { assert("refy"@.len() != "pointsatz"@.len()); }
        assert("refy"@ != "preservealpha"@) by { assert("refy"@.len() != "preservealpha"@.len()); }
        assert("refy"@ != "preserveaspectratio"@) by { assert("refy"@.len() != "preserveaspectratio"@.len()); }
        assert("refy"@ != "primitiveunits"@) by { assert("refy"@.len() != "primitiveunits"@.len()); }
        assert("refy"@ != "refx"@) by { assert("refy"@[3] != "refx"@[3]); }
    }
    assert(lower("refY"@) =~= "refy"@);
}

proof fn attr_case_37()
    ensures
        svg_attr_case(lower("repeatCount"@)) == "repeatCount"@,
{
    reveal_strlit("repeatCount");
    reveal_strlit("attributename");
    reveal_strlit("attributetype");
    reveal_strlit("basefrequency");
    reveal_strlit("baseprofile");
    reveal_strlit("calcmode");
    reveal_strlit("clippathunits");
    reveal_strlit("diffuseconstant");
    reveal_strlit("edgemode");
    reveal_strlit("filterunits");
    reveal_strlit("glyphref");
    reveal_strlit("gradienttransform");
    reveal_strlit("gradientunits");
    reveal_strlit("kernelmatrix");
    reveal_strlit("kernelunitlength");
    reveal_strlit("keypoints");
    reveal_strlit("keysplines");
    reveal_strlit("keytimes");
    reveal_strlit("lengthadjust");
    reveal_strlit("limitingconeangle");
    reveal_strlit("markerheight");
    reveal_strlit("markerunits");
    reveal_strlit("markerwidth");
    reveal_strlit("maskcontentunits");
    reveal_strlit("maskunits");
    reveal_strlit("numoctaves");
    reveal_strlit("pathlength");
    reveal_strlit("patterncontentunits");
    reveal_strlit("patterntransform");
    reveal_strlit("patternunits");
    reveal_strlit("pointsatx");
    reveal_strlit("pointsaty");
    reveal_strlit("pointsatz");
    reveal_strlit("preservealpha");
    reveal_strlit("preserveaspectratio");
    reveal_strlit("primitiveunits");
    reveal_strlit("refx");
    reveal_strlit("refy");
    reveal_strlit("repeatcount");
    assert(svg_attr_case("repeatcount"@) == "repeatCount"@) by {
        assert("repeatcount"@ != "attributename"@) by { assert("repeatcount"@.len() != "attributename"@.len()); }
        assert("repeatcount"@ != "attributetype"@) by { assert("repeatcount"@.len() != "attributetype"@.len()); }
        assert("repeatcount"@ != "basefrequency"@) by { assert("repeatcount"@.len() != "basefrequency"@.len()); }
        assert("repeatcount"@ != "baseprofile"@) by { assert("repeatcount"@[0] != "baseprofile"@[0]); }
        assert("repeatcount"@ != "calcmode"@) by { assert("repeatcount"@.len() != "calcmode"@.len()); }
        assert("repeatcount"@ != "clippathunits"@) by { assert("repeatcount"@.len() != "clippathunits"@.len()); }
        assert("repeatcount"@ != "diffuseconstant"@) by { assert("repeatcount"@.len() != "diffuseconstant"@.len()); }
        assert("repeatcount"@ != "edgemode"@) by { assert("repeatcount"@.len() != "edgemode"@.len()); }
        assert("repeatcount"@ != "filterunits"@) by { assert("repeatcount"@[0] != "filterunits"@[0]); }
        assert("repeatcount"@ != "glyphref"@) by { assert("repeatcount"@.len() != "glyphref"@.len()); }
        assert("repeatcount"@ != "gradienttransform"@) by { assert("repeatcount"@.len() != "gradienttransform"@.len()); }
        assert("repeatcount"@ != "gradientunits"@) by { assert("repeatcount"@.len() != "gradientunits"@.len()); }
        assert("repeatcount"@ != "kernelmatrix"@) by { assert("repeatcount"@.len() != "kernelmatrix"@.len()); }
        assert("repeatcount"@ != "kernelunitlength"@) by { assert("repeatcount"@.len() != "kernelunitlength"@.len()); }
        assert("repeatcount"@ != "keypoints"@) by { assert("repeatcount"@.len() != "keypoints"@.len()); }
        assert("repeatcount"@ != "keysplines"@) by { assert("repeatcount"@.len() != "keysplines"@.len()); }
        assert("repeatcount"@ != "keytimes"@) by { assert("repeatcount"@.len() != "keytimes"@.len()); }
        assert("repeatcount"@ != "lengthadjust"@) by { assert("repeatcount"@.len() != "lengthadjust"@.len()); }
        assert("repeatcount"@ != "limitingconeangle"@) by { assert("repeatcount"@.len() != "limitingconeangle"@.len()); }
        assert("repeatcount"@ != "markerheight"@) by { assert("repeatcount"@.len() != "markerheight"@.len()); }
        assert("repeatcount"@ != "markerunits"@) by { assert("repeatcount"@[0] != "markerunits"@[0]); }
        assert("repeatcount"@ != "markerwidth"@) by { assert("repeatcount"@[0] != "markerwidth"@[0]); }
        assert("repeatcount"@ != "maskcontentunits"@) by { assert("repeatcount"@.len() != "maskcontentunits"@.len()); }
        assert("repeatcount"@ != "maskunits"@) by { assert("repeatcount"@.len() != "maskunits"@.len()); }
        assert("repeatcount"@ != "numoctaves"@) by { assert("repeatcount"@.len() != "numoctaves"@.len()); }
        assert("repeatcount"@ != "pathlength"@) by { assert("repeatcount"@.len() != "pathlength"@.len()); }
        assert("repeatcount"@ != "patterncontentunits"@) by { assert("repeatcount"@.len() != "patterncontentunits"@.len()); }
        assert("repeatcount"@ != "patterntransform"@) by { assert("repeatcount"@.len() != "patterntransform"@.len()); }
        assert("repeatcount"@ != "patternunits"@) by { assert("repeatcount"@.len() != "patternunits"@.len()); }
        assert("repeatcount"@ != "pointsatx"@) by { assert("repeatcount"@.len() != "pointsatx"@.len()); }
        assert("repeatcount"@ != "pointsaty"@) by { assert("repeatcount"@.len() != "pointsaty"@.len()); }
        assert("repeatcount"@ != "pointsatz"@) by { assert("repeatcount"@.len() != "pointsatz"@.len()); }
        assert("repeatcount"@ != "preservealpha"@) by { assert("repeatcount"@.len() != "preservealpha"@.len()); }
        assert("repeatcount"@ != "preserveaspectratio"@) by { assert("repeatcount"@.len() != "preserveaspectratio"@.len()); }
        assert("repeatcount"@ != "primitiveunits"@) by { assert("repeatcount"@.len() != "primitiveunits"@.len()); }
        assert("repeatcount"@ != "refx"@) by { assert("repeatcount"@.len() != "refx"@.len()); }
        assert("repeatcount"@ != "refy"@) by { assert("repeatcount"@.len() != "refy"@.len()); }
    }
    assert(lower("repeatCount"@) =~= "repeatcount"@);
}

proof fn attr_case_38()
    ensures
        svg_attr_case(lower("repeatDur"@)) == "repeatDur"@,
{
    reveal_strlit("repeatDur");
    reveal_strlit("attributename");
    reveal_strlit("attributetype");
    reveal_strlit("basefrequency");
    reveal_strlit("baseprofile");
    reveal_strlit("calcmode");
    reveal_strlit("clippathunits");
    reveal_strlit("diffuseconstant");
    reveal_strlit("edgemode");
    reveal_strlit("filterunits");
    reveal_strlit("glyphref");
    reveal_strlit("gradienttransform");
    reveal_strlit("gradientunits");
    reveal_strlit("kernelmatrix");
    reveal_strlit("kernelunitlength");
    reveal_strlit("keypoints");
    reveal_strlit("keysplines");
    reveal_strlit("keytimes");
    reveal_strlit("lengthadjust");
    reveal_strlit("limitingconeangle");
    reveal_strlit("markerheight");
    reveal_strlit("markerunits");
    reveal_strlit("markerwidth");
    reveal_strlit("maskcontentunits");
    reveal_strlit("maskunits");
    reveal_strlit("numoctaves");
    reveal_strlit("pathlength");
    reveal_strlit("patterncontentunits");
    reveal_strlit("patterntransform");
    reveal_strlit("patternunits");
    reveal_strlit("pointsatx");
    reveal_strlit("pointsaty");
    reveal_strlit("pointsatz");
    reveal_strlit("preservealpha");
    reveal_strlit("preserveaspectratio");
    reveal_strlit("primitiveunits");
    reveal_strlit("refx");
    reveal_strlit("refy");
    reveal_strlit("repeatcount");
    reveal_strlit("repeatdur");
    assert(svg_attr_case("repeatdur"@) == "repeatDur"@) by {
        assert("repeatdur"@ != "attributename"@) by { assert("repeatdur"@.len() != "attributename"@.len()); }
        assert("repeatdur"@ != "attributetype"@) by { assert("repeatdur"@.len() != "attributetype"@.len()); }
        assert("repeatdur"@ != "basefrequency"@) by { assert("repeatdur"@.len() != "basefrequency"@.len()); }
        assert("repeatdur"@ != "baseprofile"@) by { assert("repeatdur"@.len() != "baseprofile"@.len()); }
        assert("repeatdur"@ != "calcmode"@) by { assert("repeatdur"@.len() != "calcmode"@.len()); }
        assert("repeatdur"@ != "clippathunits"@) by { assert("repeatdur"@.len() != "clippathunits"@.len()); }
        assert("repeatdur"@ != "diffuseconstant"@) by { assert("repeatdur"@.len() != "diffuseconstant"@.len()); }
        assert("repeatdur"@ != "edgemode"@) by { assert("repeatdur"@.len() != "edgemode"@.len()); }
        assert("repeatdur"@ != "filterunits"@) by { assert("repeatdur"@.len() != "filterunits"@.len()); }
        assert("repeatdur"@ != "glyphref"@) by { assert("repeatdur"@.len() != "glyphref"@.len()); }
        assert("repeatdur"@ != "gradienttransform"@) by { assert("repeatdur"@.len() != "gradienttransform"@.len()); }
        assert("repeatdur"@ != "gradientunits"@) by { assert("repeatdur"@.len() != "gradientunits"@.len()); }
        assert("repeatdur"@ != "kernelmatrix"@) by { assert("repeatdur"@.len() != "kernelmatrix"@.len()); }
        assert("repeatdur"@ != "kernelunitlength"@) by { assert("repeatdur"@.len() != "kernelunitlength"@.len()); }
        assert("repeatdur"@ != "keypoints"@) by { assert("repeatdur"@[0] != "keypoints"@[0]); }
        assert("repeatdur"@ != "keysplines"@) by { assert("repeatdur"@.len() != "keysplines"@.len()); }
        assert("repeatdur"@ != "keytimes"@) by { assert("repeatdur"@.len() != "keytimes"@.len()); }
        assert("repeatdur"@ != "lengthadjust"@) by { assert("repeatdur"@.len() != "lengthadjust"@.len()); }
        assert("repeatdur"@ != "limitingconeangle"@) by { assert("repeatdur"@.len() != "limitingconeangle"@.len()); }
        assert("repeatdur"@ != "markerheight"@) by { assert("repeatdur"@.len() != "markerheight"@.len()); }
        assert("repeatdur"@ != "markerunits"@) by { assert("repeatdur"@.len() != "markerunits"@.len()); }
        assert("repeatdur"@ != "markerwidth"@) by { assert("repeatdur"@.len() != "markerwidth"@.len()); }
        assert("repeatdur"@ != "maskcontentunits"@) by { assert("repeatdur"@.len() != "maskcontentunits"@.len()); }
        assert("repeatdur"@ != "maskunits"@) by { assert("repeatdur"@[0] != "maskunits"@[0]); }
        assert("repeatdur"@ != "numoctaves"@) by { assert("repeatdur"@.len() != "numoctaves"@.len()); }
        assert("repeatdur"@ != "pathlength"@) by { assert("repeatdur"@.len() != "pathlength"@.len()); }
        assert("repeatdur"@ != "patterncontentunits"@) by { assert("repeatdur"@.len() != "patterncontentunits"@.len()); }
        assert("repeatdur"@ != "patterntransform"@) by { assert("repeatdur"@.len() != "patterntransform"@.len()); }
        assert("repeatdur"@ != "patternunits"@) by { assert("repeatdur"@.len() != "patternunits"@.len()); }
        assert("repeatdur"@ != "pointsatx"@) by { assert("repeatdur"@[0] != "pointsatx"@[0]); }
        assert("repeatdur"@ != "pointsaty"@) by { assert("repeatdur"@[0] != "pointsaty"@[0]); }
        assert("repeatdur"@ != "pointsatz"@) by { assert("repeatdur"@[0] != "pointsatz"@[0]); }
        assert("repeatdur"@ != "preservealpha"@) by { assert("repeatdur"@.len() != "preservealpha"@.len()); }
        assert("repeatdur"@ != "preserveaspectratio"@) by { assert("repeatdur"@.len() != "preserveaspectratio"@.len()); }
        assert("repeatdur"@ != "primitiveunits"@) by { assert("repeatdur"@.len() != "primitiveunits"@.len()); }
        assert("repeatdur"@ != "refx"@) by { assert("repeatdur"@.len() != "refx"@.len()); }
        assert("repeatdur"@ != "refy"@) by { assert("repeatdur"@.len() != "refy"@.len()); }
        assert("repeatdur"@ != "repeatcount"@) by { assert("repeatdur"@.len() != "repeatcount"@.len()); }
    }
    assert(lower("repeatDur"@) =~= "repeatdur"@);
}

proof fn attr_case_39()
    ensures
        svg_attr_case(lower("requiredExtensions"@)) == "requiredExtensions"@,
{
    reveal_strlit("requiredExtensions");
    reveal_strlit("attributename");
    reveal_strlit("attributetype");
    reveal_strlit("basefrequency");
    reveal_strlit("baseprofile");
    reveal_strlit("calcmode");
    reveal_strlit("clippathunits");
    reveal_strlit("diffuseconstant");
    reveal_strlit("edgemode");
    reveal_strlit("filterunits");
    reveal_strlit("glyphref");
    reveal_strlit("gradienttransform");
    reveal_strlit("gradientunits");
    reveal_strlit("kernelmatrix");
    reveal_strlit("kernelunitlength");
    reveal_strlit("keypoints");
    reveal_strlit("keysplines");
    reveal_strlit("keytimes");
    reveal_strlit("lengthadjust");
    reveal_strlit("limitingconeangle");
    reveal_strlit("markerheight");
    reveal_strlit("markerunits");
    reveal_strlit("markerwidth");
    reveal_strlit("maskcontentunits");
    reveal_strlit("maskunits");
    reveal_strlit("numoctaves");
    reveal_strlit("pathlength");
    reveal_strlit("patterncontentunits");
    reveal_strlit("patterntransform");
    reveal_strlit("patternunits");
    reveal_strlit("pointsatx");
    reveal_strlit("pointsaty");
    reveal_strlit("pointsatz");
    reveal_strlit("preservealpha");
    reveal_strlit("preserveaspectratio");
    reveal_strlit("primitiveunits");
    reveal_strlit("refx");
    reveal_strlit("refy");
    reveal_strlit("repeatcount");
    reveal_strlit("repeatdur");
    reveal_strlit("requiredextensions");
    assert(svg_attr_case("requiredextensions"@) == "requiredExtensions"@) by {
        assert("requiredextensions"@ != "attributename"@) by { assert("requiredextensions"@.len() != "attributename"@.len()); }
        assert("requiredextensions"@ != "attributetype"@) by { assert("requiredextensions"@.len() != "attributetype"@.len()); }
        assert("requiredextensions"@ != "basefrequency"@) by { assert("requiredextensions"@.len() != "basefrequency"@.len()); }
        assert("requiredextensions"@ != "baseprofile"@) by { assert("requiredextensions"@.len() != "baseprofile"@.len()); }
        assert("requiredextensions"@ != "calcmode"@) by { assert("requiredextensions"@.len() != "calcmode"@.len()); }
        assert("requiredextensions"@ != "clippathunits"@) by { assert("requiredextensions"@.len() != "clippathunits"@.len()); }
        assert("requiredextensions"@ != "diffuseconstant"@) by { assert("requiredextensions"@.len() != "diffuseconstant"@.len()); }
        assert("requiredextensions"@ != "edgemode"@) by { assert("requiredextensions"@.len() != "edgemode"@.len()); }
        assert("requiredextensions"@ != "filterunits"@) by { assert("requiredextensions"@.len() != "filterunits"@.len()); }
        assert("requiredextensions"@ != "glyphref"@) by { assert("requiredextensions"@.len() != "glyphref"@.len()); }
        assert("requiredextensions"@ != "gradienttransform"@) by { assert("requiredextensions"@.len() != "gradienttransform"@.len()); }
        assert("requiredextensions"@ != "gradientunits"@) by { assert("requiredextensions"@.len() != "gradientunits"@.len()); }
        assert("requiredextensions"@ != "kernelmatrix"@) by { assert("requiredextensions"@.len() != "kernelmatrix"@.len()); }
        assert("requiredextensions"@ != "kernelunitlength"@) by { assert("requiredextensions"@.len() != "kernelunitlength"@.len()); }
        assert("requiredextensions"@ != "keypoints"@) by { assert("requiredextensions"@.len() != "keypoints"@.len()); }
        assert("requiredextensions"@ != "keysplines"@) by { assert("requiredextensions"@.len() != "keysplines"@.len()); }
        assert("requiredextensions"@ != "keytimes"@) by { assert("requiredextensions"@.len() != "keytimes"@.len()); }
        assert("requiredextensions"@ != "lengthadjust"@) by { assert("requiredextensions"@.len() != "lengthadjust"@.len()); }
        assert("requiredextensions"@ != "limitingconeangle"@) by { assert("requiredextensions"@.len() != "limitingconeangle"@.len()); }
        assert("requiredextensions"@ != "markerheight"@) by { assert("requiredextensions"@.len() != "markerheight"@.len()); }
        assert("requiredextensions"@ != "markerunits"@) by { assert("requiredextensions"@.len() != "markerunits"@.len()); }
        assert("requiredextensions"@ != "markerwidth"@) by { assert("requiredextensions"@.len() != "markerwidth"@.len()); }
        assert("requiredextensions"@ != "maskcontentunits"@) by { assert("requiredextensions"@.len() != "maskcontentunits"@.len()); }
        assert("requiredextensions"@ != "maskunits"@) by { assert("requiredextensions"@.len() != "maskunits"@.len()); }
        assert("requiredextensions"@ != "numoctaves"@) by { assert("requiredextensions"@.len() != "numoctaves"@.len()); }
        assert("requiredextensions"@ != "pathlength"@) by { assert("requiredextensions"@.len() != "pathlength"@.len()); }
        assert("requiredextensions"@ != "patterncontentunits"@) by { assert("requiredextensions"@.len() != "patterncontentunits"@.len()); }
        assert("requiredextensions"@ != "patterntransform"@) by { assert("requiredextensions"@.len() != "patterntransform"@.len()); }
        assert("requiredextensions"@ != "patternunits"@) by { assert("requiredextensions"@.len() != "patternunits"@.len()); }
        assert("requiredextensions"@ != "pointsatx"@) by { assert("requiredextensions"@.len() != "pointsatx"@.len()); }
        assert("requiredextensions"@ != "pointsaty"@) by { assert("requiredextensions"@.len() != "pointsaty"@.len()); }
        assert("requiredextensions"@ != "pointsatz"@) by { assert("requiredextensions"@.len() != "pointsatz"@.len()); }
        assert("requiredextensions"@ != "preservealpha"@) by { assert("requiredextensions"@.len() != "preservealpha"@.len()); }
        assert("requiredextensions"@ != "preserveaspectratio"@) by { assert("requiredextensions"@.len() != "preserveaspectratio"@.len()); }
        assert("requiredextensions"@ != "primitiveunits"@) by { assert("requiredextensions"@.len() != "primitiveunits"@.len()); }
        assert("requiredextensions"@ != "refx"@) by { assert("requiredextensions"@.len() != "refx"@.len()); }
        assert("requiredextensions"@ != "refy"@) by { assert("requiredextensions"@.len() != "refy"@.len()); }
        assert("requiredextensions"@ != "repeatcount"@) by { assert("requiredextensions"@.len() != "repeatcount"@.len()); }
        assert("requiredextensions"@ != "repeatdur"@) by { assert("requiredextensions"@.len() != "repeatdur"@.len()); }
    }
    assert(lower("requiredExtensions"@) =~= "requiredextensions"@);
}

proof fn attr_case_40()
    ensures
        svg_attr_case(lower("requiredFeatures"@)) == "requiredFeatures"@,
{
    reveal_strlit("requiredFeatures");
    reveal_strlit("attributename");
    reveal_strlit("attributetype");
    reveal_strlit("basefrequency");
    reveal_strlit("baseprofile");
    reveal_strlit("calcmode");
    reveal_strlit("clippathunits");
    reveal_strlit("diffuseconstant");
    reveal_strlit("edgemode");
    reveal_strlit("filterunits");
    reveal_strlit("glyphref");
    reveal_strlit("gradienttransform");
    reveal_strlit("gradientunits");
    reveal_strlit("kernelmatrix");
    reveal_strlit("kernelunitlength");
    reveal_strlit("keypoints");
    reveal_strlit("keysplines");
    reveal_strlit("keytimes");
    reveal_strlit("lengthadjust");
    reveal_strlit("limitingconeangle");
    reveal_strlit("markerheight");
    reveal_strlit("markerunits");
    reveal_strlit("markerwidth");
    reveal_strlit("maskcontentunits");
    reveal_strlit("maskunits");
    reveal_strlit("numoctaves");
    reveal_strlit("pathlength");
    reveal_strlit("patterncontentunits");
    reveal_strlit("patterntransform");
    reveal_strlit("patternunits");
    reveal_strlit("pointsatx");
    reveal_strlit("pointsaty");
    reveal_strlit("pointsatz");
    reveal_strlit("preservealpha");
    reveal_strlit("preserveaspectratio");
    reveal_strlit("primitiveunits");
    reveal_strlit("refx");
    reveal_strlit("refy");
    reveal_strlit("repeatcount");
    reveal_strlit("repeatdur");
    reveal_strlit("requiredextensions");
    reveal_strlit("requiredfeatures");
    assert(svg_attr_case("requiredfeatures"@) == "requiredFeatures"@) by {
        assert("requiredfeatures"@ != "attributename"@) by { assert("requiredfeatures"@.len() != "attributename"@.len()); }
        assert("requiredfeatures"@ != "attributetype"@) by { assert("requiredfeatures"@.len() != "attributetype"@.len()); }
        assert("requiredfeatures"@ != "basefrequency"@) by { assert("requiredfeatures"@.len() != "basefrequency"@.len()); }
        assert("requiredfeatures"@ != "baseprofile"@) by { assert("requiredfeatures"@.len() != "baseprofile"@.len()); }
        assert("requiredfeatures"@ != "calcmode"@) by { assert("requiredfeatures"@.len() != "calcmode"@.len()); }
        assert("requiredfeatures"@ != "clippathunits"@) by { assert("requiredfeatures"@.len() != "clippathunits"@.len()); }
        assert("requiredfeatures"@ != "diffuseconstant"@) by { assert("requiredfeatures"@.len() != "diffuseconstant"@.len()); }
        assert("requiredfeatures"@ != "edgemode"@) by { assert("requiredfeatures"@.len() != "edgemode"@.len()); }
        assert("requiredfeatures"@ != "filterunits"@) by { assert("requiredfeatures"@.len() != "filterunits"@.len()); }
        assert("requiredfeatures"@ != "glyphref"@) by { assert("requiredfeatures"@.len() != "glyphref"@.len()); }
        assert("requiredfeatures"@ != "gradienttransform"@) by { assert("requiredfeatures"@.len() != "gradienttransform"@.len()); }
        assert("requiredfeatures"@ != "gradientunits"@) by { assert("requiredfeatures"@.len() != "gradientunits"@.len()); }
        assert("requiredfeatures"@ != "kernelmatrix"@) by { assert("requiredfeatures"@.len() != "kernelmatrix"@.len()); }
        assert("requiredfeatures"@ != "kernelunitlength"@) by { assert("requiredfeatures"@[0] != "kernelunitlength"@[0]); }
        assert("requiredfeatures"@ != "keypoints"@) by { assert("requiredfeatures"@.len() != "keypoints"@.len()); }
        assert("requiredfeatures"@ != "keysplines"@) by { assert("requiredfeatures"@.len() != "keysplines"@.len()); }
        assert("requiredfeatures"@ != "keytimes"@) by { assert("requiredfeatures"@.len() != "keytimes"@.len()); }
        assert("requiredfeatures"@ != "lengthadjust"@) by { assert("requiredfeatures"@.len() != "lengthadjust"@.len()); }
        assert("requiredfeatures"@ != "limitingconeangle"@) by { assert("requiredfeatures"@.len() != "limitingconeangle"@.len()); }
        assert("requiredfeatures"@ != "markerheight"@) by { assert("requiredfeatures"@.len() != "markerheight"@.len()); }
        assert("requiredfeatures"@ != "markerunits"@) by { assert("requiredfeatures"@.len() != "markerunits"@.len()); }
        assert("requiredfeatures"@ != "markerwidth"@) by { assert("requiredfeatures"@.len() != "markerwidth"@.len()); }
        assert("requiredfeatures"@ != "maskcontentunits"@) by { assert("requiredfeatures"@[0] != "maskcontentunits"@[0]); }
        assert("requiredfeatures"@ != "maskunits"@) by { assert("requiredfeatures"@.len() != "maskunits"@.len()); }
        assert("requiredfeatures"@ != "numoctaves"@) by { assert("requiredfeatures"@.len() != "numoctaves"@.len()); }
        assert("requiredfeatures"@ != "pathlength"@) by { assert("requiredfeatures"@.len() != "pathlength"@.len()); }
        assert("requiredfeatures"@ != "patterncontentunits"@) by { assert("requiredfeatures"@.len() != "patterncontentunits"@.len()); }
        assert("requiredfeatures"@ != "patterntransform"@) by { assert("requiredfeatures"@[0] != "patterntransform"@[0]); }
        assert("requiredfeatures"@ != "patternunits"@) by { assert("requiredfeatures"@.len() != "patternunits"@.len()); }
        assert("requiredfeatures"@ != "pointsatx"@) by { assert("requiredfeatures"@.len() != "pointsatx"@.len()); }
        assert("requiredfeatures"@ != "pointsaty"@) by { assert("requiredfeatures"@.len() != "pointsaty"@.len()); }
        assert("requiredfeatures"@ != "pointsatz"@) by { assert("requiredfeatures"@.len() != "pointsatz"@.len()); }
        assert("requiredfeatures"@ != "preservealpha"@) by { assert("requiredfeatures"@.len() != "preservealpha"@.len()); }
        assert("requiredfeatures"@ != "preserveaspectratio"@) by { assert("requiredfeatures"@.len() != "preserveaspectratio"@.len()); }
        assert("requiredfeatures"@ != "primitiveunits"@) by { assert("requiredfeatures"@.len() != "primitiveunits"@.len()); }
        assert("requiredfeatures"@ != "refx"@) by { assert("requiredfeatures"@.len() != "refx"@.len()); }
        assert("requiredfeatures"@ != "refy"@) by { assert("requiredfeatures"@.len() != "refy"@.len()); }
        assert("requiredfeatures"@ != "repeatcount"@) by { assert("requiredfeatures"@.len() != "repeatcount"@.len()); }
        assert("requiredfeatures"@ != "repeatdur"@) by { assert("requiredfeatures"@.len() != "repeatdur"@.len()); }
        assert("requiredfeatures"@ != "requiredextensions"@) by { assert("requiredfeatures"@.len() != "requiredextensions"@.len()); }
    }
    assert(lower("requiredFeatures"@) =~= "requiredfeatures"@);
}

proof fn attr_case_41()
    ensures
        svg_attr_case(lower("specularConstant"@)) == "specularConstant"@,
{
    reveal_strlit("specularConstant");
    reveal_strlit("attributename");
    reveal_strlit("attributetype");
    reveal_strlit("basefrequency");
    reveal_strlit("baseprofile");
    reveal_strlit("calcmode");
    reveal_strlit("clippathunits");
    reveal_strlit("diffuseconstant");
    reveal_strlit("edgemode");
    reveal_strlit("filterunits");
    reveal_strlit("glyphref");
    reveal_strlit("gradienttransform");
    reveal_strlit("gradientunits");
    reveal_strlit("kernelmatrix");
    reveal_strlit("kernelunitlength");
    reveal_strlit("keypoints");
    reveal_strlit("keysplines");
    reveal_strlit("keytimes");
    reveal_strlit("lengthadjust");
    reveal_strlit("limitingconeangle");
    reveal_strlit("markerheight");
    reveal_strlit("markerunits");
    reveal_strlit("markerwidth");
    reveal_strlit("maskcontentunits");
    reveal_strlit("maskunits");
    reveal_strlit("numoctaves");
    reveal_strlit("pathlength");
    reveal_strlit("patterncontentunits");
    reveal_strlit("patterntransform");
    reveal_strlit("patternunits");
    reveal_strlit("pointsatx");
    reveal_strlit("pointsaty");
    reveal_strlit("pointsatz");
    reveal_strlit("preservealpha");
    reveal_strlit("preserveaspectratio");
    reveal_strlit("primitiveunits");
    reveal_strlit("refx");
    reveal_strlit("refy");
    reveal_strlit("repeatcount");
    reveal_strlit("repeatdur");
    reveal_strlit("requiredextensions");
    reveal_strlit("requiredfeatures");
    reveal_strlit("specularconstant");
    assert(svg_attr_case("specularconstant"@) == "specularConstant"@) by {
        assert("specularconstant"@ != "attributename"@) by { assert("specularconstant"@.len() != "attributename"@.len()); }
        assert("specularconstant"@ != "attributetype"@) by { assert("specularconstant"@.len() != "attributetype"@.len()); }
        assert("specularconstant"@ != "basefrequency"@) by { assert("specularconstant"@.len() != "basefrequency"@.len()); }
        assert("specularconstant"@ != "baseprofile"@) by { assert("specularconstant"@.len() != "baseprofile"@.len()); }
        assert("specularconstant"@ != "calcmode"@) by { assert("specularconstant"@.len() != "calcmode"@.len()); }
        assert("specularconstant"@ != "clippathunits"@) by { assert("specularconstant"@.len() != "clippathunits"@.len()); }
        assert("specularconstant"@ != "diffuseconstant"@) by { assert("specularconstant"@.len() != "diffuseconstant"@.len()); }
        assert("specularconstant"@ != "edgemode"@) by { assert("specularconstant"@.len() != "edgemode"@.len()); }
        assert("specularconstant"@ != "filterunits"@) by { assert("specularconstant"@.len() != "filterunits"@.len()); }
        assert("specularconstant"@ != "glyphref"@) by { assert("specularconstant"@.len() != "glyphref"@.len()); }
        assert("specularconstant"@ != "gradienttransform"@) by { assert("specularconstant"@.len() != "gradienttransform"@.len()); }
        assert("specularconstant"@ != "gradientunits"@) by { assert("specularconstant"@.len() != "gradientunits"@.len()); }
        assert("specularconstant"@ != "kernelmatrix"@) by { assert("specularconstant"@.len() != "kernelmatrix"@.len()); }
        assert("specularconstant"@ != "kernelunitlength"@) by { assert("specularconstant"@[0] != "kernelunitlength"@[0]); }
        assert("specularconstant"@ != "keypoints"@) by { assert("specularconstant"@.len() != "keypoints"@.len()); }
        assert("specularconstant"@ != "keysplines"@) by { assert("specularconstant"@.len() != "keysplines"@.len()); }
        assert("specularconstant"@ != "keytimes"@) by { assert("specularconstant"@.len() != "keytimes"@.len()); }
        assert("specularconstant"@ != "lengthadjust"@) by { assert("specularconstant"@.len() != "lengthadjust"@.len()); }
        assert("specularconstant"@ != "limitingconeangle"@) by { assert("specularconstant"@.len() != "limitingconeangle"@.len()); }
        assert("specularconstant"@ != "markerheight"@) by { assert("specularconstant"@.len() != "markerheight"@.len()); }
        assert("specularconstant"@ != "markerunits"@) by { assert("specularconstant"@.len() != "markerunits"@.len()); }
        assert("specularconstant"@ != "markerwidth"@) by { assert("specularconstant"@.len() != "markerwidth"@.len()); }
        assert("specularconstant"@ != "maskcontentunits"@) by { assert("specularconstant"@[0] != "maskcontentunits"@[0]); }
        assert("specularconstant"@ != "maskunits"@) by { assert("specularconstant"@.len() != "maskunits"@.len()); }
        assert("specularconstant"@ != "numoctaves"@) by { assert("specularconstant"@.len() != "numoctaves"@.len()); }
        assert("specularconstant"@ != "pathlength"@) by { assert("specularconstant"@.len() != "pathlength"@.len()); }
        assert("specularconstant"@ != "patterncontentunits"@) by { assert("specularconstant"@.len() != "patterncontentunits"@.len()); }
        assert("specularconstant"@ != "patterntransform"@) by { assert("specularconstant"@[0] != "patterntransform"@[0]); }
        assert("specularconstant"@ != "patternunits"@) by { assert("specularconstant"@.len() != "patternunits"@.len()); }
        assert("specularconstant"@ != "pointsatx"@) by { assert("specularconstant"@.len() != "pointsatx"@.len()); }
        assert("specularconstant"@ != "pointsaty"@) by { assert("specularconstant"@.len() != "pointsaty"@.len()); }
        assert("specularconstant"@ != "pointsatz"@) by { assert("specularconstant"@.len() != "pointsatz"@.len()); }
        assert("specularconstant"@ != "preservealpha"@) by { assert("specularconstant"@.len() != "preservealpha"@.len()); }
        assert("specularconstant"@ != "preserveaspectratio"@) by { assert("specularconstant"@.len() != "preserveaspectratio"@.len()); }
        assert("specularconstant"@ != "primitiveunits"@) by { assert("specularconstant"@.len() != "primitiveunits"@.len()); }
        assert("specularconstant"@ != "refx"@) by { assert("specularconstant"@.len() != "refx"@.len()); }
        assert("specularconstant"@ != "refy"@) by { assert("specularconstant"@.len() != "refy"@.len()); }
        assert("specularconstant"@ != "repeatcount"@) by { assert("specularconstant"@.len() != "repeatcount"@.len()); }
        assert("specularconstant"@ != "repeatdur"@) by { assert("specularconstant"@.len() != "repeatdur"@.len()); }
        assert("specularconstant"@ != "requiredextensions"@) by { assert("specularconstant"@.len() != "requiredextensions"@.len()); }
        assert("specularconstant"@ != "requiredfeatures"@) by { assert("specularconstant"@[0] != "requiredfeatures"@[0]); }
    }
    assert(lower("specularConstant"@) =~= "specularconstant"@);
}

proof fn attr_case_42()
    ensures
        svg_attr_case(lower("specularExponent"@)) == "specularExponent"@,
{
    reveal_strlit("specularExponent");
    reveal_strlit("attributename");
    reveal_strlit("attributetype");
    reveal_strlit("basefrequency");
    reveal_strlit("baseprofile");
    reveal_strlit("calcmode");
    reveal_strlit("clippathunits");
    reveal_strlit("diffuseconstant");
    reveal_strlit("edgemode");
    reveal_strlit("filterunits");
    reveal_strlit("glyphref");
    reveal_strlit("gradienttransform");
    reveal_strlit("gradientunits");
    reveal_strlit("kernelmatrix");
    reveal_strlit("kernelunitlength");
    reveal_strlit("keypoints");
    reveal_strlit("keysplines");
    reveal_strlit("keytimes");
    reveal_strlit("lengthadjust");
    reveal_strlit("limitingconeangle");
    reveal_strlit("markerheight");
    reveal_strlit("markerunits");
    reveal_strlit("markerwidth");
    reveal_strlit("maskcontentunits");
    reveal_strlit("maskunits");
    reveal_strlit("numoctaves");
    reveal_strlit("pathlength");
    reveal_strlit("patterncontentunits");
    reveal_strlit("patterntransform");
    reveal_strlit("patternunits");
    reveal_strlit("pointsatx");
    reveal_strlit("pointsaty");
    reveal_strlit("pointsatz");
    reveal_strlit("preservealpha");
    reveal_strlit("preserveaspectratio");
    reveal_strlit("primitiveunits");
    reveal_strlit("refx");
    reveal_strlit("refy");
    reveal_strlit("repeatcount");
    reveal_strlit("repeatdur");
    reveal_strlit("requiredextensions");
    reveal_strlit("requiredfeatures");
    reveal_strlit("specularconstant");
    reveal_strlit("specularexponent");
    assert(svg_attr_case("specularexponent"@) == "specularExponent"@) by {
        assert("specularexponent"@ != "attributename"@) by { assert("specularexponent"@.len() != "attributename"@.len()); }
        assert("specularexponent"@ != "attributetype"@) by { assert("specularexponent"@.len() != "attributetype"@.len()); }
        assert("specularexponent"@ != "basefrequency"@) by { assert("specularexponent"@.len() != "basefrequency"@.len()); }
        assert("specularexponent"@ != "baseprofile"@) by { assert("specularexponent"@.len() != "baseprofile"@.len()); }
        assert("specularexponent"@ != "calcmode"@) by { assert("specularexponent"@.len() != "calcmode"@.len()); }
        assert("specularexponent"@ != "clippathunits"@) by { assert("specularexponent"@.len() != "clippathunits"@.len()); }
        assert("specularexponent"@ != "diffuseconstant"@) by { assert("specularexponent"@.len() != "diffuseconstant"@.len()); }
        assert("specularexponent"@ != "edgemode"@) by { assert("specularexponent"@.len() != "edgemode"@.len()); }
        assert("specularexponent"@ != "filterunits"@) by { assert("specularexponent"@.len() != "filterunits"@.len()); }
        assert("specularexponent"@ != "glyphref"@) by { assert("specularexponent"@.len() != "glyphref"@.len()); }
        assert("specularexponent"@ != "gradienttransform"@) by { assert("specularexponent"@.len() != "gradienttransform"@.len()); }
        assert("specularexponent"@ != "gradientunits"@) by { assert("specularexponent"@.len() != "gradientunits"@.len()); }
        assert("specularexponent"@ != "kernelmatrix"@) by { assert("specularexponent"@.len() != "kernelmatrix"@.len()); }
        assert("specularexponent"@ != "kernelunitlength"@) by { assert("specularexponent"@[0] != "kernelunitlength"@[0]); }
        assert("specularexponent"@ != "keypoints"@) by { assert("specularexponent"@.len() != "keypoints"@.len()); }
        assert("specularexponent"@ != "keysplines"@) by { assert("specularexponent"@.len() != "keysplines"@.len()); }
        assert("specularexponent"@ != "keytimes"@) by { assert("specularexponent"@.len() != "keytimes"@.len()); }
        assert("specularexponent"@ != "lengthadjust"@) by { assert("specularexponent"@.len() != "lengthadjust"@.len()); }
        assert("specularexponent"@ != "limitingconeangle"@) by { assert("specularexponent"@.len() != "limitingconeangle"@.len()); }
        assert("specularexponent"@ != "markerheight"@) by { assert("specularexponent"@.len() != "markerheight"@.len()); }
        assert("specularexponent"@ != "markerunits"@) by { assert("specularexponent"@.len() != "markerunits"@.len()); }
        assert("specularexponent"@ != "markerwidth"@) by { assert("specularexponent"@.len() != "markerwidth"@.len()); }
        assert("specularexponent"@ != "maskcontentunits"@) by { assert("specularexponent"@[0] != "maskcontentunits"@[0]); }
        assert("specularexponent"@ != "maskunits"@) by { assert("specularexponent"@.len() != "maskunits"@.len()); }
        assert("specularexponent"@ != "numoctaves"@) by { assert("specularexponent"@.len() != "numoctaves"@.len()); }
        assert("specularexponent"@ != "pathlength"@) by { assert("specularexponent"@.len() != "pathlength"@.len()); }
        assert("specularexponent"@ != "patterncontentunits"@) by { assert("specularexponent"@.len() != "patterncontentunits"@.len()); }
        assert("specularexponent"@ != "patterntransform"@) by { assert("specularexponent"@[0] != "patterntransform"@[0]); }
        assert("specularexponent"@ != "patternunits"@) by { assert("specularexponent"@.len() != "patternunits"@.len()); }
        assert("specularexponent"@ != "pointsatx"@) by { assert("specularexponent"@.len() != "pointsatx"@.len()); }
        assert("specularexponent"@ != "pointsaty"@) by { assert("specularexponent"@.len() != "pointsaty"@.len()); }
        assert("specularexponent"@ != "pointsatz"@) by { assert("specularexponent"@.len() != "pointsatz"@.len()); }
        assert("specularexponent"@ != "preservealpha"@) by { assert("specularexponent"@.len() != "preservealpha"@.len()); }
        assert("specularexponent"@ != "preserveaspectratio"@) by { assert("specularexponent"@.len() != "preserveaspectratio"@.len()); }
        assert("specularexponent"@ != "primitiveunits"@) by { assert("specularexponent"@.len() != "primitiveunits"@.len()); }
        assert("specularexponent"@ != "refx"@) by { assert("specularexponent"@.len() != "refx"@.len()); }
        assert("specularexponent"@ != "refy"@) by { assert("specularexponent"@.len() != "refy"@.len()); }
        assert("specularexponent"@ != "repeatcount"@) by { assert("specularexponent"@.len() != "repeatcount"@.len()); }
        assert("specularexponent"@ != "repeatdur"@) by { assert("specularexponent"@.len() != "repeatdur"@.len()); }
        assert("specularexponent"@ != "requiredextensions"@) by { assert("specularexponent"@.len() != "requiredextensions"@.len()); }
        assert("specularexponent"@ != "requiredfeatures"@) by { assert("specularexponent"@[0] != "requiredfeatures"@[0]); }
        assert("specularexponent"@ != "specularconstant"@) by { assert("specularexponent"@[8] != "specularconstant"@[8]); }
    }
    assert(lower("specularExponent"@) =~= "specularexponent"@);
}

proof fn attr_case_43()
    ensures
        svg_attr_case(lower("spreadMethod"@)) == "spreadMethod"@,
{
    reveal_strlit("spreadMethod");
    reveal_strlit("attributename");
    reveal_strlit("attributetype");
    reveal_strlit("basefrequency");
    reveal_strlit("baseprofile");
    reveal_strlit("calcmode");
    reveal_strlit("clippathunits");
    reveal_strlit("diffuseconstant");
    reveal_strlit("edgemode");
    reveal_strlit("filterunits");
    reveal_strlit("glyphref");
    reveal_strlit("gradienttransform");
    reveal_strlit("gradientunits");
    reveal_strlit("kernelmatrix");
    reveal_strlit("kernelunitlength");
    reveal_strlit("keypoints");
    reveal_strlit("keysplines");
    reveal_strlit("keytimes");
    reveal_strlit("lengthadjust");
    reveal_strlit("limitingconeangle");
    reveal_strlit("markerheight");
    reveal_strlit("markerunits");
    reveal_strlit("markerwidth");
    reveal_strlit("maskcontentunits");
    reveal_strlit("maskunits");
    reveal_strlit("numoctaves");
    reveal_strlit("pathlength");
    reveal_strlit("patterncontentunits");
    reveal_strlit("patterntransform");
    reveal_strlit("patternunits");
    reveal_strlit("pointsatx");
    reveal_strlit("pointsaty");
    reveal_strlit("pointsatz");
    reveal_strlit("preservealpha");
    reveal_strlit("preserveaspectratio");
    reveal_strlit("primitiveunits");
    reveal_strlit("refx");
    reveal_strlit("refy");
    reveal_strlit("repeatcount");
    reveal_strlit("repeatdur");
    reveal_strlit("requiredextensions");
    reveal_strlit("requiredfeatures");
    reveal_strlit("specularconstant");
    reveal_strlit("specularexponent");
    reveal_strlit("spreadmethod");
    assert(svg_attr_case("spreadmethod"@) == "spreadMethod"@) by {
        assert("spreadmethod"@ != "attributename"@) by { assert("spreadmethod"@.len() != "attributename"@.len()); }
        assert("spreadmethod"@ != "attributetype"@) by { assert("spreadmethod"@.len() != "attributetype"@.len()); }
        assert("spreadmethod"@ != "basefrequency"@) by { assert("spreadmethod"@.len() != "basefrequency"@.len()); }
        assert("spreadmethod"@ != "baseprofile"@) by { assert("spreadmethod"@.len() != "baseprofile"@.len()); }
        assert("spreadmethod"@ != "calcmode"@) by { assert("spreadmethod"@.len() != "calcmode"@.len()); }
        assert("spreadmethod"@ != "clippathunits"@) by { assert("spreadmethod"@.len() != "clippathunits"@.len()); }
        assert("spreadmethod"@ != "diffuseconstant"@) by { assert("spreadmethod"@.len() != "diffuseconstant"@.len()); }
        assert("spreadmethod"@ != "edgemode"@) by { assert("spreadmethod"@.len() != "edgemode"@.len()); }
        assert("spreadmethod"@ != "filterunits"@) by { assert("spreadmethod"@.len() != "filterunits"@.len()); }
        assert("spreadmethod"@ != "glyphref"@) by { assert("spreadmethod"@.len() != "glyphref"@.len()); }
        assert("spreadmethod"@ != "gradienttransform"@) by { assert("spreadmethod"@.len() != "gradienttransform"@.len()); }
        assert("spreadmethod"@ != "gradientunits"@) by { assert("spreadmethod"@.len() != "gradientunits"@.len()); }
        assert("spreadmethod"@ != "kernelmatrix"@) by { assert("spreadmethod"@[0] != "kernelmatrix"@[0]); }
        assert("spreadmethod"@ != "kernelunitlength"@) by { assert("spreadmethod"@.len() != "kernelunitlength"@.len()); }
        assert("spreadmethod"@ != "keypoints"@) by { assert("spreadmethod"@.len() != "keypoints"@.len()); }
        assert("spreadmethod"@ != "keysplines"@) by { assert("spreadmethod"@.len() != "keysplines"@.len()); }
        assert("spreadmethod"@ != "keytimes"@) by { assert("spreadmethod"@.len() != "keytimes"@.len()); }
        assert("spreadmethod"@ != "lengthadjust"@) by { assert("spreadmethod"@[0] != "lengthadjust"@[0]); }
        assert("spreadmethod"@ != "limitingconeangle"@) by { assert("spreadmethod"@.len() != "limitingconeangle"@.len()); }
        assert("spreadmethod"@ != "markerheight"@) by { assert("spreadmethod"@[0] != "markerheight"@[0]); }
        assert("spreadmethod"@ != "markerunits"@) by { assert("spreadmethod"@.len() != "markerunits"@.len()); }
        assert("spreadmethod"@ != "markerwidth"@) by { assert("spreadmethod"@.len() != "markerwidth"@.len()); }
        assert("spreadmethod"@ != "maskcontentunits"@) by { assert("spreadmethod"@.len() != "maskcontentunits"@.len()); }
        assert("spreadmethod"@ != "maskunits"@) by { assert("spreadmethod"@.len() != "maskunits"@.len()); }
        assert("spreadmethod"@ != "numoctaves"@) by { assert("spreadmethod"@.len() != "numoctaves"@.len()); }
        assert("spreadmethod"@ != "pathlength"@) by { assert("spreadmethod"@.len() != "pathlength"@.len()); }
        assert("spreadmethod"@ != "patterncontentunits"@) by { assert("spreadmethod"@.len() != "patterncontentunits"@.len()); }
        assert("spreadmethod"@ != "patterntransform"@) by { assert("spreadmethod"@.len() != "patterntransform"@.len()); }
        assert("spreadmethod"@ != "patternunits"@) by { assert("spreadmethod"@[0] != "patternunits"@[0]); }
        assert("spreadmethod"@ != "pointsatx"@) by { assert("spreadmethod"@.len() != "pointsatx"@.len()); }
        assert("spreadmethod"@ != "pointsaty"@) by { assert("spreadmethod"@.len() != "pointsaty"@.len()); }
        assert("spreadmethod"@ != "pointsatz"@) by { assert("spreadmethod"@.len() != "pointsatz"@.len()); }
        assert("spreadmethod"@ != "preservealpha"@) by { assert("spreadmethod"@.len() != "preservealpha"@.len()); }
        assert("spreadmethod"@ != "preserveaspectratio"@) by { assert("spreadmethod"@.len() != "preserveaspectratio"@.len()); }
        assert("spreadmethod"@ != "primitiveunits"@) by { assert("spreadmethod"@.len() != "primitiveunits"@.len()); }
        assert("spreadmethod"@ != "refx"@) by { assert("spreadmethod"@.len() != "refx"@.len()); }
        assert("spreadmethod"@ != "refy"@) by { assert("spreadmethod"@.len() != "refy"@.len()); }
        assert("spreadmethod"@ != "repeatcount"@) by { assert("spreadmethod"@.len() != "repeatcount"@.len()); }
        assert("spreadmethod"@ != "repeatdur"@) by { assert("spreadmethod"@.len() != "repeatdur"@.len()); }
        assert("spreadmethod"@ != "requiredextensions"@) by { assert("spreadmethod"@.len() != "requiredextensions"@.len()); }
        assert("spreadmethod"@ != "requiredfeatures"@) by { assert("spreadmethod"@.len() != "requiredfeatures"@.len()); }
        assert("spreadmethod"@ != "specularconstant"@) by { assert("spreadmethod"@.len() != "specularconstant"@.len()); }
        assert("spreadmethod"@ != "specularexponent"@) by { assert("spreadmethod"@.len() != "specularexponent"@.len()); }
    }
    assert(lower("spreadMethod"@) =~= "spreadmethod"@);
}

proof fn attr_case_44()
    ensures
        svg_attr_case(lower("startOffset"@)) == "startOffset"@,
{
    reveal_strlit("startOffset");
    reveal_strlit("attributename");
    reveal_strlit("attributetype");
    reveal_strlit("basefrequency");
    reveal_strlit("baseprofile");
    reveal_strlit("calcmode");
    reveal_strlit("clippathunits");
    reveal_strlit("diffuseconstant");
    reveal_strlit("edgemode");
    reveal_strlit("filterunits");
    reveal_strlit("glyphref");
    reveal_strlit("gradienttransform");
    reveal_strlit("gradientunits");
    reveal_strlit("kernelmatrix");
    reveal_strlit("kernelunitlength");
    reveal_strlit("keypoints");
    reveal_strlit("keysplines");
    reveal_strlit("keytimes");
    reveal_strlit("lengthadjust");
    reveal_strlit("limitingconeangle");
    reveal_strlit("markerheight");
    reveal_strlit("markerunits");
    reveal_strlit("markerwidth");
    reveal_strlit("maskcontentunits");
    reveal_strlit("maskunits");
    reveal_strlit("numoctaves");
    reveal_strlit("pathlength");
    reveal_strlit("patterncontentunits");
    reveal_strlit("patterntransform");
    reveal_strlit("patternunits");
    reveal_strlit("pointsatx");
    reveal_strlit("pointsaty");
    reveal_strlit("pointsatz");
    reveal_strlit("preservealpha");
    reveal_strlit("preserveaspectratio");
    reveal_strlit("primitiveunits");
    reveal_strlit("refx");
    reveal_strlit("refy");
    reveal_strlit("repeatcount");
    reveal_strlit("repeatdur");
    reveal_strlit("requiredextensions");
    reveal_strlit("requiredfeatures");
    reveal_strlit("specularconstant");
    reveal_strlit("specularexponent");
    reveal_strlit("spreadmethod");
    reveal_strlit("startoffset");
    assert(svg_attr_case("startoffset"@) == "startOffset"@) by {
        assert("startoffset"@ != "attributename"@) by { assert("startoffset"@.len() != "attributename"@.len()); }
        assert("startoffset"@ != "attributetype"@) by { assert("startoffset"@.len() != "attributetype"@.len()); }
        assert("startoffset"@ != "basefrequency"@) by { assert("startoffset"@.len() != "basefrequency"@.len()); }
        assert("startoffset"@ != "baseprofile"@) by { assert("startoffset"@[0] != "baseprofile"@[0]); }
        assert("startoffset"@ != "calcmode"@) by { assert("startoffset"@.len() != "calcmode"@.len()); }
        assert("startoffset"@ != "clippathunits"@) by { assert("startoffset"@.len() != "clippathunits"@.len()); }
        assert("startoffset"@ != "diffuseconstant"@) by { assert("startoffset"@.len() != "diffuseconstant"@.len()); }
        assert("startoffset"@ != "edgemode"@) by { assert("startoffset"@.len() != "edgemode"@.len()); }
        assert("startoffset"@ != "filterunits"@) by { assert("startoffset"@[0] != "filterunits"@[0]); }
        assert("startoffset"@ != "glyphref"@) by { assert("startoffset"@.len() != "glyphref"@.len()); }
        assert("startoffset"@ != "gradienttransform"@) by { assert("startoffset"@.len() != "gradienttransform"@.len()); }
        assert("startoffset"@ != "gradientunits"@) by { assert("startoffset"@.len() != "gradientunits"@.len()); }
        assert("startoffset"@ != "kernelmatrix"@) by { assert("startoffset"@.len() != "kernelmatrix"@.len()); }
        assert("startoffset"@ != "kernelunitlength"@) by { assert("startoffset"@.len() != "kernelunitlength"@.len()); }
        assert("startoffset"@ != "keypoints"@) by { assert("startoffset"@.len() != "keypoints"@.len()); }
        assert("startoffset"@ != "keysplines"@) by { assert("startoffset"@.len() != "keysplines"@.len()); }
        assert("startoffset"@ != "keytimes"@) by { assert("startoffset"@.len() != "keytimes"@.len()); }
        assert("startoffset"@ != "lengthadjust"@) by { assert("startoffset"@.len() != "lengthadjust"@.len()); }
        assert("startoffset"@ != "limitingconeangle"@) by { assert("startoffset"@.len() != "limitingconeangle"@.len()); }
        assert("startoffset"@ != "markerheight"@) by { assert("startoffset"@.len() != "markerheight"@.len()); }
        assert("startoffset"@ != "markerunits"@) by { assert("startoffset"@[0] != "markerunits"@[0]); }
        assert("startoffset"@ != "markerwidth"@) by { assert("startoffset"@[0] != "markerwidth"@[0]); }
        assert("startoffset"@ != "maskcontentunits"@) by { assert("startoffset"@.len() != "maskcontentunits"@.len()); }
        assert("startoffset"@ != "maskunits"@) by { assert("startoffset"@.len() != "maskunits"@.len()); }
        assert("startoffset"@ != "numoctaves"@) by { assert("startoffset"@.len() != "numoctaves"@.len()); }
        assert("startoffset"@ != "pathlength"@) by { assert("startoffset"@.len() != "pathlength"@.len()); }
        assert("startoffset"@ != "patterncontentunits"@) by { assert("startoffset"@.len() != "patterncontentunits"@.len()); }
        assert("startoffset"@ != "patterntransform"@) by { assert("startoffset"@.len() != "patterntransform"@.len()); }
        assert("startoffset"@ != "patternunits"@) by { assert("startoffset"@.len() != "patternunits"@.len()); }
        assert("startoffset"@ != "pointsatx"@) by { assert("startoffset"@.len() != "pointsatx"@.len()); }
        assert("startoffset"@ != "pointsaty"@) by { assert("startoffset"@.len() != "pointsaty"@.len()); }
        assert("startoffset"@ != "pointsatz"@) by { assert("startoffset"@.len() != "pointsatz"@.len()); }
        assert("startoffset"@ != "preservealpha"@) by { assert("startoffset"@.len() != "preservealpha"@.len()); }
        assert("startoffset"@ != "preserveaspectratio"@) by { assert("startoffset"@.len() != "preserveaspectratio"@.len()); }
        assert("startoffset"@ != "primitiveunits"@) by { assert("startoffset"@.len() != "primitiveunits"@.len()); }
        assert("startoffset"@ != "refx"@) by { assert("startoffset"@.len() != "refx"@.len()); }
        assert("startoffset"@ != "refy"@) by { assert("startoffset"@.len() != "refy"@.len()); }
        assert("startoffset"@ != "repeatcount"@) by { assert("startoffset"@[0] != "repeatcount"@[0]); }
        assert("startoffset"@ != "repeatdur"@) by { assert("startoffset"@.len() != "repeatdur"@.len()); }
        assert("startoffset"@ != "requiredextensions"@) by { assert("startoffset"@.len() != "requiredextensions"@.len()); }
        assert("startoffset"@ != "requiredfeatures"@) by { assert("startoffset"@.len() != "requiredfeatures"@.len()); }
        assert("startoffset"@ != "specularconstant"@) by { assert("startoffset"@.len() != "specularconstant"@.len()); }
        assert("startoffset"@ != "specularexponent"@) by { assert("startoffset"@.len() != "specularexponent"@.len()); }
        assert("startoffset"@ != "spreadmethod"@) by { assert("startoffset"@.len() != "spreadmethod"@.len()); }
    }
    assert(lower("startOffset"@) =~= "startoffset"@);
}

proof fn attr_case_45()
    ensures
        svg_attr_case(lower("stdDeviation"@)) == "stdDeviation"@,
{
    reveal_strlit("stdDeviation");
    reveal_strlit("attributename");
    reveal_strlit("attributetype");
    reveal_strlit("basefrequency");
    reveal_strlit("baseprofile");
    reveal_strlit("calcmode");
    reveal_strlit("clippathunits");
    reveal_strlit("diffuseconstant");
    reveal_strlit("edgemode");
    reveal_strlit("filterunits");
    reveal_strlit("glyphref");
    reveal_strlit("gradienttransform");
    reveal_strlit("gradientunits");
    reveal_strlit("kernelmatrix");
    reveal_strlit("kernelunitlength");
    reveal_strlit("keypoints");
    reveal_strlit("keysplines");
    reveal_strlit("keytimes");
    reveal_strlit("lengthadjust");
    reveal_strlit("limitingconeangle");
    reveal_strlit("markerheight");
    reveal_strlit("markerunits");
    reveal_strlit("markerwidth");
    reveal_strlit("maskcontentunits");
    reveal_strlit("maskunits");
    reveal_strlit("numoctaves");
    reveal_strlit("pathlength");
    reveal_strlit("patterncontentunits");
    reveal_strlit("patterntransform");
    reveal_strlit("patternunits");
    reveal_strlit("pointsatx");
    reveal_strlit("pointsaty");
    reveal_strlit("pointsatz");
    reveal_strlit("preservealpha");
    reveal_strlit("preserveaspectratio");
    reveal_strlit("primitiveunits");
    reveal_strlit("refx");
    reveal_strlit("refy");
    reveal_strlit("repeatcount");
    reveal_strlit("repeatdur");
    reveal_strlit("requiredextensions");
    reveal_strlit("requiredfeatures");
    reveal_strlit("specularconstant");
    reveal_strlit("specularexponent");
    reveal_strlit("spreadmethod");
    reveal_strlit("startoffset");
    reveal_strlit("stddeviation");
    assert(svg_attr_case("stddeviation"@) == "stdDeviation"@) by {
        assert("stddeviation"@ != "attributename"@) by { assert("stddeviation"@.len() != "attributename"@.len()); }
        assert("stddeviation"@ != "attributetype"@) by { assert("stddeviation"@.len() != "attributetype"@.len()); }
        assert("stddeviation"@ != "basefrequency"@) by { assert("stddeviation"@.len() != "basefrequency"@.len()); }
        assert("stddeviation"@ != "baseprofile"@) by { assert("stddeviation"@.len() != "baseprofile"@.len()); }
        assert("stddeviation"@ != "calcmode"@) by { assert("stddeviation"@.len() != "calcmode"@.len()); }
        assert("stddeviation"@ != "clippathunits"@) by { assert("stddeviation"@.len() != "clippathunits"@.len()); }
        assert("stddeviation"@ != "diffuseconstant"@) by { assert("stddeviation"@.len() != "diffuseconstant"@.len()); }
        assert("stddeviation"@ != "edgemode"@) by { assert("stddeviation"@.len() != "edgemode"@.len()); }
        assert("stddeviation"@ != "filterunits"@) by { assert("stddeviation"@.len() != "filterunits"@.len()); }
        assert("stddeviation"@ != "glyphref"@) by { assert("stddeviation"@.len() != "glyphref"@.len()); }
        assert("stddeviation"@ != "gradienttransform"@) by { assert("stddeviation"@.len() != "gradienttransform"@.len()); }
        assert("stddeviation"@ != "gradientunits"@) by { assert("stddeviation"@.len() != "gradientunits"@.len()); }
        assert("stddeviation"@ != "kernelmatrix"@) by { assert("stddeviation"@[0] != "kernelmatrix"@[0]); }
        assert("stddeviation"@ != "kernelunitlength"@) by { assert("stddeviation"@.len() != "kernelunitlength"@.len()); }
        assert("stddeviation"@ != "keypoints"@) by { assert("stddeviation"@.len() != "keypoints"@.len()); }
        assert("stddeviation"@ != "keysplines"@) by { assert("stddeviation"@.len() != "keysplines"@.len()); }
        assert("stddeviation"@ != "keytimes"@) by { assert("stddeviation"@.len() != "keytimes"@.len()); }
        assert("stddeviation"@ != "lengthadjust"@) by { assert("stddeviation"@[0] != "lengthadjust"@[0]); }
        assert("stddeviation"@ != "limitingconeangle"@) by { assert("stddeviation"@.len() != "limitingconeangle"@.len()); }
        assert("stddeviation"@ != "markerheight"@) by { assert("stddeviation"@[0] != "markerheight"@[0]); }
        assert("stddeviation"@ != "markerunits"@) by { assert("stddeviation"@.len() != "markerunits"@.len()); }
        assert("stddeviation"@ != "markerwidth"@) by { assert("stddeviation"@.len() != "markerwidth"@.len()); }
        assert("stddeviation"@ != "maskcontentunits"@) by { assert("stddeviation"@.len() != "maskcontentunits"@.len()); }
        assert("stddeviation"@ != "maskunits"@) by { assert("stddeviation"@.len() != "maskunits"@.len()); }
        assert("stddeviation"@ != "numoctaves"@) by { assert("stddeviation"@.len() != "numoctaves"@.len()); }
        assert("stddeviation"@ != "pathlength"@) by { assert("stddeviation"@.len() != "pathlength"@.len()); }
        assert("stddeviation"@ != "patterncontentunits"@) by { assert("stddeviation"@.len() != "patterncontentunits"@.len()); }
        assert("stddeviation"@ != "patterntransform"@) by { assert("stddeviation"@.len() != "patterntransform"@.len()); }
        assert("stddeviation"@ != "patternunits"@) by { assert("stddeviation"@[0] != "patternunits"@[0]); }
        assert("stddeviation"@ != "pointsatx"@) by { assert("stddeviation"@.len() != "pointsatx"@.len()); }
        assert("stddeviation"@ != "pointsaty"@) by { assert("stddeviation"@.len() != "pointsaty"@.len()); }
        assert("stddeviation"@ != "pointsatz"@) by { assert("stddeviation"@.len() != "pointsatz"@.len()); }
        assert("stddeviation"@ != "preservealpha"@) by { assert("stddeviation"@.len() != "preservealpha"@.len()); }
        assert("stddeviation"@ != "preserveaspectratio"@) by { assert("stddeviation"@.len() != "preserveaspectratio"@.len()); }
        assert("stddeviation"@ != "primitiveunits"@) by { assert("stddeviation"@.len() != "primitiveunits"@.len()); }
        assert("stddeviation"@ != "refx"@) by { assert("stddeviation"@.len() != "refx"@.len()); }
        assert("stddeviation"@ != "refy"@) by { assert("stddeviation"@.len() != "refy"@.len()); }
        assert("stddeviation"@ != "repeatcount"@) by { assert("stddeviation"@.len() != "repeatcount"@.len()); }
        assert("stddeviation"@ != "repeatdur"@) by { assert("stddeviation"@.len() != "repeatdur"@.len()); }
        assert("stddeviation"@ != "requiredextensions"@) by { assert("stddeviation"@.len() != "requiredextensions"@.len()); }
        assert("stddeviation"@ != "requiredfeatures"@) by { assert("stddeviation"@.len() != "requiredfeatures"@.len()); }
        assert("stddeviation"@ != "specularconstant"@) by { assert("stddeviation"@.len() != "specularconstant"@.len()); }
        assert("stddeviation"@ != "specularexponent"@) by { assert("stddeviation"@.len() != "specularexponent"@.len()); }
        assert("stddeviation"@ != "spreadmethod"@) by { assert("stddeviation"@[1] != "spreadmethod"@[1]); }
        assert("stddeviation"@ != "startoffset"@) by { assert("stddeviation"@.len() != "startoffset"@.len()); }
    }
    assert(lower("stdDeviation"@) =~= "stddeviation"@);
}

proof fn attr_case_46()
    ensures
        svg_attr_case(lower("stitchTiles"@)) == "stitchTiles"@,
{
    reveal_strlit("stitchTiles");
    reveal_strlit("attributename");
    reveal_strlit("attributetype");
    reveal_strlit("basefrequency");
    reveal_strlit("baseprofile");
    reveal_strlit("calcmode");
    reveal_strlit("clippathunits");
    reveal_strlit("diffuseconstant");
    reveal_strlit("edgemode");
    reveal_strlit("filterunits");
    reveal_strlit("glyphref");
    reveal_strlit("gradienttransform");
    reveal_strlit("gradientunits");
    reveal_strlit("kernelmatrix");
    reveal_strlit("kernelunitlength");
    reveal_strlit("keypoints");
    reveal_strlit("keysplines");
    reveal_strlit("keytimes");
    reveal_strlit("lengthadjust");
    reveal_strlit("limitingconeangle");
    reveal_strlit("markerheight");
    reveal_strlit("markerunits");
    reveal_strlit("markerwidth");
    reveal_strlit("maskcontentunits");
    reveal_strlit("maskunits");
    reveal_strlit("numoctaves");
    reveal_strlit("pathlength");
    reveal_strlit("patterncontentunits");
    reveal_strlit("patterntransform");
    reveal_strlit("patternunits");
    reveal_strlit("pointsatx");
    reveal_strlit("pointsaty");
    reveal_strlit("pointsatz");
    reveal_strlit("preservealpha");
    reveal_strlit("preserveaspectratio");
    reveal_strlit("primitiveunits");
    reveal_strlit("refx");
    reveal_strlit("refy");
    reveal_strlit("repeatcount");
    reveal_strlit("repeatdur");
    reveal_strlit("requiredextensions");
    reveal_strlit("requiredfeatures");
    reveal_strlit("specularconstant");
    reveal_strlit("specularexponent");
    reveal_strlit("spreadmethod");
    reveal_strlit("startoffset");
    reveal_strlit("stddeviation");
    reveal_strlit("stitchtiles");
    assert(svg_attr_case("stitchtiles"@) == "stitchTiles"@) by {
        assert("stitchtiles"@ != "attributename"@) by { assert("stitchtiles"@.len() != "attributename"@.len()); }
        assert("stitchtiles"@ != "attributetype"@) by { assert("stitchtiles"@.len() != "attributetype"@.len()); }
        assert("stitchtiles"@ != "basefrequency"@) by { assert("stitchtiles"@.len() != "basefrequency"@.len()); }
        assert("stitchtiles"@ != "baseprofile"@) by { assert("stitchtiles"@[0] != "baseprofile"@[0]); }
        assert("stitchtiles"@ != "calcmode"@) by { assert("stitchtiles"@.len() != "calcmode"@.len()); }
        assert("stitchtiles"@ != "clippathunits"@) by { assert("stitchtiles"@.len() != "clippathunits"@.len()); }
        assert("stitchtiles"@ != "diffuseconstant"@) by { assert("stitchtiles"@.len() != "diffuseconstant"@.len()); }
        assert("stitchtiles"@ != "edgemode"@) by { assert("stitchtiles"@.len() != "edgemode"@.len()); }
        assert("stitchtiles"@ != "filterunits"@) by { assert("stitchtiles"@[0] != "filterunits"@[0]); }
        assert("stitchtiles"@ != "glyphref"@) by { assert("stitchtiles"@.len() != "glyphref"@.len()); }
        assert("stitchtiles"@ != "gradienttransform"@) by { assert("stitchtiles"@.len() != "gradienttransform"@.len()); }
        assert("stitchtiles"@ != "gradientunits"@) by { assert("stitchtiles"@.len() != "gradientunits"@.len()); }
        assert("stitchtiles"@ != "kernelmatrix"@) by { assert("stitchtiles"@.len() != "kernelmatrix"@.len()); }
        assert("stitchtiles"@ != "kernelunitlength"@) by { assert("stitchtiles"@.len() != "kernelunitlength"@.len()); }
        assert("stitchtiles"@ != "keypoints"@) by { assert("stitchtiles"@.len() != "keypoints"@.len()); }
        assert("stitchtiles"@ != "keysplines"@) by { assert("stitchtiles"@.len() != "keysplines"@.len()); }
        assert("stitchtiles"@ != "keytimes"@) by { assert("stitchtiles"@.len() != "keytimes"@.len()); }
        assert("stitchtiles"@ != "lengthadjust"@) by { assert("stitchtiles"@.len() != "lengthadjust"@.len()); }
        assert("stitchtiles"@ != "limitingconeangle"@) by { assert("stitchtiles"@.len() != "limitingconeangle"@.len()); }
        assert("stitchtiles"@ != "markerheight"@) by { assert("stitchtiles"@.len() != "markerheight"@.len()); }
        assert("stitchtiles"@ != "markerunits"@) by { assert("stitchtiles"@[0] != "markerunits"@[0]); }
        assert("stitchtiles"@ != "markerwidth"@) by { assert("stitchtiles"@[0] != "markerwidth"@[0]); }
        assert("stitchtiles"@ != "maskcontentunits"@) by { assert("stitchtiles"@.len() != "maskcontentunits"@.len()); }
        assert("stitchtiles"@ != "maskunits"@) by { assert("stitchtiles"@.len() != "maskunits"@.len()); }
        assert("stitchtiles"@ != "numoctaves"@) by { assert("stitchtiles"@.len() != "numoctaves"@.len()); }
        assert("stitchtiles"@ != "pathlength"@) by { assert("stitchtiles"@.len() != "pathlength"@.len()); }
        assert("stitchtiles"@ != "patterncontentunits"@) by { assert("stitchtiles"@.len() != "patterncontentunits"@.len()); }
        assert("stitchtiles"@ != "patterntransform"@) by { assert("stitchtiles"@.len() != "patterntransform"@.len()); }
        assert("stitchtiles"@ != "patternunits"@) by { assert("stitchtiles"@.len() != "patternunits"@.len()); }
        assert("stitchtiles"@ != "pointsatx"@) by { assert("stitchtiles"@.len() != "pointsatx"@.len()); }
        assert("stitchtiles"@ != "pointsaty"@) by { assert("stitchtiles"@.len() != "pointsaty"@.len()); }
        assert("stitchtiles"@ != "pointsatz"@) by { assert("stitchtiles"@.len() != "pointsatz"@.len()); }
        assert("stitchtiles"@ != "preservealpha"@) by { assert("stitchtiles"@.len() != "preservealpha"@.len()); }
        assert("stitchtiles"@ != "preserveaspectratio"@) by { assert("stitchtiles"@.len() != "preserveaspectratio"@.len()); }
        assert("stitchtiles"@ != "primitiveunits"@) by { assert("stitchtiles"@.len() != "primitiveunits"@.len()); }
        assert("stitchtiles"@ != "refx"@) by { assert("stitchtiles"@.len() != "refx"@.len()); }
        assert("stitchtiles"@ != "refy"@) by { assert("stitchtiles"@.len() != "refy"@.len()); }
        assert("stitchtiles"@ != "repeatcount"@) by { assert("stitchtiles"@[0] != "repeatcount"@[0]); }
        assert("stitchtiles"@ != "repeatdur"@) by { assert("stitchtiles"@.len() != "repeatdur"@.len()); }
        assert("stitchtiles"@ != "requiredextensions"@) by { assert("stitchtiles"@.len() != "requiredextensions"@.len()); }
        assert("stitchtiles"@ != "requiredfeatures"@) by { assert("stitchtiles"@.len() != "requiredfeatures"@.len()); }
        assert("stitchtiles"@ != "specularconstant"@) by { assert("stitchtiles"@.len() != "specularconstant"@.len()); }
        assert("stitchtiles"@ != "specularexponent"@) by { assert("stitchtiles"@.len() != "specularexponent"@.len()); }
        assert("stitchtiles"@ != "spreadmethod"@) by { assert("stitchtiles"@.len() != "spreadmethod"@.len()); }
        assert("stitchtiles"@ != "startoffset"@) by { assert("stitchtiles"@[2] != "startoffset"@[2]); }
        assert("stitchtiles"@ != "stddeviation"@) by { assert("stitchtiles"@.len() != "stddeviation"@.len()); }
    }
    assert(lower("stitchTiles"@) =~= "stitchtiles"@);
}

proof fn attr_case_47()
    ensures
        svg_attr_case(lower("surfaceScale"@)) == "surfaceScale"@,
{
    reveal_strlit("surfaceScale");
    reveal_strlit("attributename");
    reveal_strlit("attributetype");
    reveal_strlit("basefrequency");
    reveal_strlit("baseprofile");
    reveal_strlit("calcmode");
    reveal_strlit("clippathunits");
    reveal_strlit("diffuseconstant");
    reveal_strlit("edgemode");
    reveal_strlit("filterunits");
    reveal_strlit("glyphref");
    reveal_strlit("gradienttransform");
    reveal_strlit("gradientunits");
    reveal_strlit("kernelmatrix");
    reveal_strlit("kernelunitlength");
    reveal_strlit("keypoints");
    reveal_strlit("keysplines");
    reveal_strlit("keytimes");
    reveal_strlit("lengthadjust");
    reveal_strlit("limitingconeangle");
    reveal_strlit("markerheight");
    reveal_strlit("markerunits");
    reveal_strlit("markerwidth");
    reveal_strlit("maskcontentunits");
    reveal_strlit("maskunits");
    reveal_strlit("numoctaves");
    reveal_strlit("pathlength");
    reveal_strlit("patterncontentunits");
    reveal_strlit("patterntransform");
    reveal_strlit("patternunits");
    reveal_strlit("pointsatx");
    reveal_strlit("pointsaty");
    reveal_strlit("pointsatz");
    reveal_strlit("preservealpha");
    reveal_strlit("preserveaspectratio");
    reveal_strlit("primitiveunits");
    reveal_strlit("refx");
    reveal_strlit("refy");
    reveal_strlit("repeatcount");
    reveal_strlit("repeatdur");
    reveal_strlit("requiredextensions");
    reveal_strlit("requiredfeatures");
    reveal_strlit("specularconstant");
    reveal_strlit("specularexponent");
    reveal_strlit("spreadmethod");
    reveal_strlit("startoffset");
    reveal_strlit("stddeviation");
    reveal_strlit("stitchtiles");
    reveal_strlit("surfacescale");
    assert(svg_attr_case("surfacescale"@) == "surfaceScale"@) by {
        assert("surfacescale"@ != "attributename"@) by { assert("surfacescale"@.len() != "attributename"@.len()); }
        assert("surfacescale"@ != "attributetype"@) by { assert("surfacescale"@.len() != "attributetype"@.len()); }
        assert("surfacescale"@ != "basefrequency"@) by { assert("surfacescale"@.len() != "basefrequency"@.len()); }
        assert("surfacescale"@ != "baseprofile"@) by { assert("surfacescale"@.len() != "baseprofile"@.len()); }
        assert("surfacescale"@ != "calcmode"@) by { assert("surfacescale"@.len() != "calcmode"@.len()); }
        assert("surfacescale"@ != "clippathunits"@) by { assert("surfacescale"@.len() != "clippathunits"@.len()); }
        assert("surfacescale"@ != "diffuseconstant"@) by { assert("surfacescale"@.len() != "diffuseconstant"@.len()); }
        assert("surfacescale"@ != "edgemode"@) by { assert("surfacescale"@.len() != "edgemode"@.len()); }
        assert("surfacescale"@ != "filterunits"@) by { assert("surfacescale"@.len() != "filterunits"@.len()); }
        assert("surfacescale"@ != "glyphref"@) by { assert("surfacescale"@.len() != "glyphref"@.len()); }
        assert("surfacescale"@ != "gradienttransform"@) by { assert("surfacescale"@.len() != "gradienttransform"@.len()); }
        assert("surfacescale"@ != "gradientunits"@) by { assert("surfacescale"@.len() != "gradientunits"@.len()); }
        assert("surfacescale"@ != "kernelmatrix"@) by { assert("surfacescale"@[0] != "kernelmatrix"@[0]); }
        assert("surfacescale"@ != "kernelunitlength"@) by { assert("surfacescale"@.len() != "kernelunitlength"@.len()); }
        assert("surfacescale"@ != "keypoints"@) by { assert("surfacescale"@.len() != "keypoints"@.len()); }
        assert("surfacescale"@ != "keysplines"@) by { assert("surfacescale"@.len() != "keysplines"@.len()); }
        assert("surfacescale"@ != "keytimes"@) by { assert("surfacescale"@.len() != "keytimes"@.len()); }
        assert("surfacescale"@ != "lengthadjust"@) by { assert("surfacescale"@[0] != "lengthadjust"@[0]); }
        assert("surfacescale"@ != "limitingconeangle"@) by { assert("surfacescale"@.len() != "limitingconeangle"@.len()); }
        assert("surfacescale"@ != "markerheight"@) by { assert("surfacescale"@[0] != "markerheight"@[0]); }
        assert("surfacescale"@ != "markerunits"@) by { assert("surfacescale"@.len() != "markerunits"@.len()); }
        assert("surfacescale"@ != "markerwidth"@) by { assert("surfacescale"@.len() != "markerwidth"@.len()); }
        assert("surfacescale"@ != "maskcontentunits"@) by { assert("surfacescale"@.len() != "maskcontentunits"@.len()); }
        assert("surfacescale"@ != "maskunits"@) by { assert("surfacescale"@.len() != "maskunits"@.len()); }
        assert("surfacescale"@ != "numoctaves"@) by { assert("surfacescale"@.len() != "numoctaves"@.len()); }
        assert("surfacescale"@ != "pathlength"@) by { assert("surfacescale"@.len() != "pathlength"@.len()); }
        assert("surfacescale"@ != "patterncontentunits"@) by { assert("surfacescale"@.len() != "patterncontentunits"@.len()); }
        assert("surfacescale"@ != "patterntransform"@) by { assert("surfacescale"@.len() != "patterntransform"@.len()); }
        assert("surfacescale"@ != "patternunits"@) by { assert("surfacescale"@[0] != "patternunits"@[0]); }
        assert("surfacescale"@ != "pointsatx"@) by { assert("surfacescale"@.len() != "pointsatx"@.len()); }
        assert("surfacescale"@ != "pointsaty"@) by { assert("surfacescale"@.len() != "pointsaty"@.len()); }
        assert("surfacescale"@ != "pointsatz"@) by { assert("surfacescale"@.len() != "pointsatz"@.len()); }
        assert("surfacescale"@ != "preservealpha"@) by { assert("surfacescale"@.len() != "preservealpha"@.len()); }
        assert("surfacescale"@ != "preserveaspectratio"@) by { assert("surfacescale"@.len() != "preserveaspectratio"@.len()); }
        assert("surfacescale"@ != "primitiveunits"@) by { assert("surfacescale"@.len() != "primitiveunits"@.len()); }
        assert("surfacescale"@ != "refx"@) by { assert("surfacescale"@.len() != "refx"@.len()); }
        assert("surfacescale"@ != "refy"@) by { assert("surfacescale"@.len() != "refy"@.len()); }
        assert("surfacescale"@ != "repeatcount"@) by { assert("surfacescale"@.len() != "repeatcount"@.len()); }
        assert("surfacescale"@ != "repeatdur"@) by { assert("surfacescale"@.len() != "repeatdur"@.len()); }
        assert("surfacescale"@ != "requiredextensions"@) by { assert("surfacescale"@.len() != "requiredextensions"@.len()); }
        assert("surfacescale"@ != "requiredfeatures"@) by { assert("surfacescale"@.len() != "requiredfeatures"@.len()); }
        assert("surfacescale"@ != "specularconstant"@) by { assert("surfacescale"@.len() != "specularconstant"@.len()); }
        assert("surfacescale"@ != "specularexponent"@) by { assert("surfacescale"@.len() != "specularexponent"@.len()); }
        assert("surfacescale"@ != "spreadmethod"@) by { assert("surfacescale"@[1] != "spreadmethod"@[1]); }
        assert("surfacescale"@ != "startoffset"@) by { assert("surfacescale"@.len() != "startoffset"@.len()); }
        assert("surfacescale"@ != "stddeviation"@) by { assert("surfacescale"@[1] != "stddeviation"@[1]); }
        assert("surfacescale"@ != "stitchtiles"@) by { assert("surfacescale"@.len() != "stitchtiles"@.len()); }
    }
    assert(lower("surfaceScale"@) =~= "surfacescale"@);
}

proof fn attr_case_48()
    ensures
        svg_attr_case(lower("systemLanguage"@)) == "systemLanguage"@,
{
    reveal_strlit("systemLanguage");
    reveal_strlit("attributename");
    reveal_strlit("attributetype");
    reveal_strlit("basefrequency");
    reveal_strlit("baseprofile");
    reveal_strlit("calcmode");
    reveal_strlit("clippathunits");
    reveal_strlit("diffuseconstant");
    reveal_strlit("edgemode");
    reveal_strlit("filterunits");
    reveal_strlit("glyphref");
    reveal_strlit("gradienttransform");
    reveal_strlit("gradientunits");
    reveal_strlit("kernelmatrix");
    reveal_strlit("kernelunitlength");
    reveal_strlit("keypoints");
    reveal_strlit("keysplines");
    reveal_strlit("keytimes");
    reveal_strlit("lengthadjust");
    reveal_strlit("limitingconeangle");
    reveal_strlit("markerheight");
    reveal_strlit("markerunits");
    reveal_strlit("markerwidth");
    reveal_strlit("maskcontentunits");
    reveal_strlit("maskunits");
    reveal_strlit("numoctaves");
    reveal_strlit("pathlength");
    reveal_strlit("patterncontentunits");
    reveal_strlit("patterntransform");
    reveal_strlit("patternunits");
    reveal_strlit("pointsatx");
    reveal_strlit("pointsaty");
    reveal_strlit("pointsatz");
    reveal_strlit("preservealpha");
    reveal_strlit("preserveaspectratio");
    reveal_strlit("primitiveunits");
    reveal_strlit("refx");
    reveal_strlit("refy");
    reveal_strlit("repeatcount");
    reveal_strlit("repeatdur");
    reveal_strlit("requiredextensions");
    reveal_strlit("requiredfeatures");
    reveal_strlit("specularconstant");
    reveal_strlit("specularexponent");
    reveal_strlit("spreadmethod");
    reveal_strlit("startoffset");
    reveal_strlit("stddeviation");
    reveal_strlit("stitchtiles");
    reveal_strlit("surfacescale");
    reveal_strlit("systemlanguage");
    assert(svg_attr_case("systemlanguage"@) == "systemLanguage"@) by {
        assert("systemlanguage"@ != "attributename"@) by { assert("systemlanguage"@.len() != "attributename"@.len()); }
        assert("systemlanguage"@ != "attributetype"@) by { assert("systemlanguage"@.len() != "attributetype"@.len()); }
        assert("systemlanguage"@ != "basefrequency"@) by { assert("systemlanguage"@.len() != "basefrequency"@.len()); }
        assert("systemlanguage"@ != "baseprofile"@) by { assert("systemlanguage"@.len() != "baseprofile"@.len()); }
        assert("systemlanguage"@ != "calcmode"@) by { assert("systemlanguage"@.len() != "calcmode"@.len()); }
        assert("systemlanguage"@ != "clippathunits"@) by { assert("systemlanguage"@.len() != "clippathunits"@.len()); }
        assert("systemlanguage"@ != "diffuseconstant"@) by { assert("systemlanguage"@.len() != "diffuseconstant"@.len()); }
        assert("systemlanguage"@ != "edgemode"@) by { assert("systemlanguage"@.len() != "edgemode"@.len()); }
        assert("systemlanguage"@ != "filterunits"@) by { assert("systemlanguage"@.len() != "filterunits"@.len()); }
        assert("systemlanguage"@ != "glyphref"@) by { assert("systemlanguage"@.len() != "glyphref"@.len()); }
        assert("systemlanguage"@ != "gradienttransform"@) by { assert("systemlanguage"@.len() != "gradienttransform"@.len()); }
        assert("systemlanguage"@ != "gradientunits"@) by { assert("systemlanguage"@.len() != "gradientunits"@.len()); }
        assert("systemlanguage"@ != "kernelmatrix"@) by { assert("systemlanguage"@.len() != "kernelmatrix"@.len()); }
        assert("systemlanguage"@ != "kernelunitlength"@) by { assert("systemlanguage"@.len() != "kernelunitlength"@.len()); }
        assert("systemlanguage"@ != "keypoints"@) by { assert("systemlanguage"@.len() != "keypoints"@.len()); }
        assert("systemlanguage"@ != "keysplines"@) by { assert("systemlanguage"@.len() != "keysplines"@.len()); }
        assert("systemlanguage"@ != "keytimes"@) by { assert("systemlanguage"@.len() != "keytimes"@.len()); }
        assert("systemlanguage"@ != "lengthadjust"@) by { assert("systemlanguage"@.len() != "lengthadjust"@.len()); }
        assert("systemlanguage"@ != "limitingconeangle"@) by { assert("systemlanguage"@.len() != "limitingconeangle"@.len()); }
        assert("systemlanguage"@ != "markerheight"@) by { assert("systemlanguage"@.len() != "markerheight"@.len()); }
        assert("systemlanguage"@ != "markerunits"@) by { assert("systemlanguage"@.len() != "markerunits"@.len()); }
        assert("systemlanguage"@ != "markerwidth"@) by { assert("systemlanguage"@.len() != "markerwidth"@.len()); }
        assert("systemlanguage"@ != "maskcontentunits"@) by { assert("systemlanguage"@.len() != "maskcontentunits"@.len()); }
        assert("systemlanguage"@ != "maskunits"@) by { assert("systemlanguage"@.len() != "maskunits"@.len()); }
        assert("systemlanguage"@ != "numoctaves"@) by { assert("systemlanguage"@.len() != "numoctaves"@.len()); }
        assert("systemlanguage"@ != "pathlength"@) by { assert("systemlanguage"@.len() != "pathlength"@.len()); }
        assert("systemlanguage"@ != "patterncontentunits"@) by { assert("systemlanguage"@.len() != "patterncontentunits"@.len()); }
        assert("systemlanguage"@ != "patterntransform"@) by { assert("systemlanguage"@.len() != "patterntransform"@.len()); }
        assert("systemlanguage"@ != "patternunits"@) by { assert("systemlanguage"@.len() != "patternunits"@.len()); }
        assert("systemlanguage"@ != "pointsatx"@) by { assert("systemlanguage"@.len() != "pointsatx"@.len()); }
        assert("systemlanguage"@ != "pointsaty"@) by { assert("systemlanguage"@.len() != "pointsaty"@.len()); }
        assert("systemlanguage"@ != "pointsatz"@) by { assert("systemlanguage"@.len() != "pointsatz"@.len()); }
        assert("systemlanguage"@ != "preservealpha"@) by { assert("systemlanguage"@.len() != "preservealpha"@.len()); }
        assert("systemlanguage"@ != "preserveaspectratio"@) by { assert("systemlanguage"@.len() != "preserveaspectratio"@.len()); }
        assert("systemlanguage"@ != "primitiveunits"@) by { assert("systemlanguage"@[0] != "primitiveunits"@[0]); }
        assert("systemlanguage"@ != "refx"@) by { assert("systemlanguage"@.len() != "refx"@.len()); }
        assert("systemlanguage"@ != "refy"@) by { assert("systemlanguage"@.len() != "refy"@.len()); }
        assert("systemlanguage"@ != "repeatcount"@) by { assert("systemlanguage"@.len() != "repeatcount"@.len()); }
        assert("systemlanguage"@ != "repeatdur"@) by { assert("systemlanguage"@.len() != "repeatdur"@.len()); }
        assert("systemlanguage"@ != "requiredextensions"@) by { assert("systemlanguage"@.len() != "requiredextensions"@.len()); }
        assert("systemlanguage"@ != "requiredfeatures"@) by { assert("systemlanguage"@.len() != "requiredfeatures"@.len()); }
        assert("systemlanguage"@ != "specularconstant"@) by { assert("systemlanguage"@.len() != "specularconstant"@.len()); }
        assert("systemlanguage"@ != "specularexponent"@) by { assert("systemlanguage"@.len() != "specularexponent"@.len()); }
        assert("systemlanguage"@ != "spreadmethod"@) by { assert("systemlanguage"@.len() != "spreadmethod"@.len()); }
        assert("systemlanguage"@ != "startoffset"@) by { assert("systemlanguage"@.len() != "startoffset"@.len()); }
        assert("systemlanguage"@ != "stddeviation"@) by { assert("systemlanguage"@.len() != "stddeviation"@.len()); }
        assert("systemlanguage"@ != "stitchtiles"@) by { assert("systemlanguage"@.len() != "stitchtiles"@.len()); }
        assert("systemlanguage"@ != "surfacescale"@) by { assert("systemlanguage"@.len() != "surfacescale"@.len()); }
    }
    assert(lower("systemLanguage"@) =~= "systemlanguage"@);
}

proof fn attr_case_49()
    ensures
        svg_attr_case(lower("tableValues"@)) == "tableValues"@,
{
    reveal_strlit("tableValues");
    reveal_strlit("attributename");
    reveal_strlit("attributetype");
    reveal_strlit("basefrequency");
    reveal_strlit("baseprofile");
    reveal_strlit("calcmode");
    reveal_strlit("clippathunits");
    reveal_strlit("diffuseconstant");
    reveal_strlit("edgemode");
    reveal_strlit("filterunits");
    reveal_strlit("glyphref");
    reveal_strlit("gradienttransform");
    reveal_strlit("gradientunits");
    reveal_strlit("kernelmatrix");
    reveal_strlit("kernelunitlength");
    reveal_strlit("keypoints");
    reveal_strlit("keysplines");
    reveal_strlit("keytimes");
    reveal_strlit("lengthadjust");
    reveal_strlit("limitingconeangle");
    reveal_strlit("markerheight");
    reveal_strlit("markerunits");
    reveal_strlit("markerwidth");
    reveal_strlit("maskcontentunits");
    reveal_strlit("maskunits");
    reveal_strlit("numoctaves");
    reveal_strlit("pathlength");
    reveal_strlit("patterncontentunits");
    reveal_strlit("patterntransform");
    reveal_strlit("patternunits");
    reveal_strlit("pointsatx");
    reveal_strlit("pointsaty");
    reveal_strlit("pointsatz");
    reveal_strlit("preservealpha");
    reveal_strlit("preserveaspectratio");
    reveal_strlit("primitiveunits");
    reveal_strlit("refx");
    reveal_strlit("refy");
    reveal_strlit("repeatcount");
    reveal_strlit("repeatdur");
    reveal_strlit("requiredextensions");
    reveal_strlit("requiredfeatures");
    reveal_strlit("specularconstant");
    reveal_strlit("specularexponent");
    reveal_strlit("spreadmethod");
    reveal_strlit("startoffset");
    reveal_strlit("stddeviation");
    reveal_strlit("stitchtiles");
    reveal_strlit("surfacescale");
    reveal_strlit("systemlanguage");
    reveal_strlit("tablevalues");
    assert(svg_attr_case("tablevalues"@) == "tableValues"@) by {
        assert("tablevalues"@ != "attributename"@) by { assert("tablevalues"@.len() != "attributename"@.len()); }
        assert("tablevalues"@ != "attributetype"@) by { assert("tablevalues"@.len() != "attributetype"@.len()); }
        assert("tablevalues"@ != "basefrequency"@) by { assert("tablevalues"@.len() != "basefrequency"@.len()); }
        assert("tablevalues"@ != "baseprofile"@) by { assert("tablevalues"@[0] != "baseprofile"@[0]); }
        assert("tablevalues"@ != "calcmode"@) by { assert("tablevalues"@.len() != "calcmode"@.len()); }
        assert("tablevalues"@ != "clippathunits"@) by { assert("tablevalues"@.len() != "clippathunits"@.len()); }
        assert("tablevalues"@ != "diffuseconstant"@) by { assert("tablevalues"@.len() != "diffuseconstant"@.len()); }
        assert("tablevalues"@ != "edgemode"@) by { assert("tablevalues"@.len() != "edgemode"@.len()); }
        assert("tablevalues"@ != "filterunits"@) by { assert("tablevalues"@[0] != "filterunits"@[0]); }
        assert("tablevalues"@ != "glyphref"@) by { assert("tablevalues"@.len() != "glyphref"@.len()); }
        assert("tablevalues"@ != "gradienttransform"@) by { assert("tablevalues"@.len() != "gradienttransform"@.len()); }
        assert("tablevalues"@ != "gradientunits"@) by { assert("tablevalues"@.len() != "gradientunits"@.len()); }
        assert("tablevalues"@ != "kernelmatrix"@) by { assert("tablevalues"@.len() != "kernelmatrix"@.len()); }
        assert("tablevalues"@ != "kernelunitlength"@) by { assert("tablevalues"@.len() != "kernelunitlength"@.len()); }
        assert("tablevalues"@ != "keypoints"@) by { assert("tablevalues"@.len() != "keypoints"@.len()); }
        assert("tablevalues"@ != "keysplines"@) by { assert("tablevalues"@.len() != "keysplines"@.len()); }
        assert("tablevalues"@ != "keytimes"@) by { assert("tablevalues"@.len() != "keytimes"@.len()); }
        assert("tablevalues"@ != "lengthadjust"@) by { assert("tablevalues"@.len() != "lengthadjust"@.len()); }
        assert("tablevalues"@ != "limitingconeangle"@) by { assert("tablevalues"@.len() != "limitingconeangle"@.len()); }
        assert("tablevalues"@ != "markerheight"@) by { assert("tablevalues"@.len() != "markerheight"@.len()); }
        assert("tablevalues"@ != "markerunits"@) by { assert("tablevalues"@[0] != "markerunits"@[0]); }
        assert("tablevalues"@ != "markerwidth"@) by { assert("tablevalues"@[0] != "markerwidth"@[0]); }
        assert("tablevalues"@ != "maskcontentunits"@) by { assert("tablevalues"@.len() != "maskcontentunits"@.len()); }
        assert("tablevalues"@ != "maskunits"@) by { assert("tablevalues"@.len() != "maskunits"@.len()); }
        assert("tablevalues"@ != "numoctaves"@) by { assert("tablevalues"@.len() != "numoctaves"@.len()); }
        assert("tablevalues"@ != "pathlength"@) by { assert("tablevalues"@.len() != "pathlength"@.len()); }
        assert("tablevalues"@ != "patterncontentunits"@) by { assert("tablevalues"@.len() != "patterncontentunits"@.len()); }
        assert("tablevalues"@ != "patterntransform"@) by { assert("tablevalues"@.len() != "patterntransform"@.len()); }
        assert("tablevalues"@ != "patternunits"@) by { assert("tablevalues"@.len() != "patternunits"@.len()); }
        assert("tablevalues"@ != "pointsatx"@) by { assert("tablevalues"@.len() != "pointsatx"@.len()); }
        assert("tablevalues"@ != "pointsaty"@) by { assert("tablevalues"@.len() != "pointsaty"@.len()); }
        assert("tablevalues"@ != "pointsatz"@) by { assert("tablevalues"@.len() != "pointsatz"@.len()); }
        assert("tablevalues"@ != "preservealpha"@) by { assert("tablevalues"@.len() != "preservealpha"@.len()); }
        assert("tablevalues"@ != "preserveaspectratio"@) by { assert("tablevalues"@.len() != "preserveaspectratio"@.len()); }
        assert("tablevalues"@ != "primitiveunits"@) by { assert("tablevalues"@.len() != "primitiveunits"@.len()); }
        assert("tablevalues"@ != "refx"@) by { assert("tablevalues"@.len() != "refx"@.len()); }
        assert("tablevalues"@ != "refy"@) by { assert("tablevalues"@.len() != "refy"@.len()); }
        assert("tablevalues"@ != "repeatcount"@) by { assert("tablevalues"@[0] != "repeatcount"@[0]); }
        assert("tablevalues"@ != "repeatdur"@) by { assert("tablevalues"@.len() != "repeatdur"@.len()); }
        assert("tablevalues"@ != "requiredextensions"@) by { assert("tablevalues"@.len() != "requiredextensions"@.len()); }
        assert("tablevalues"@ != "requiredfeatures"@) by { assert("tablevalues"@.len() != "requiredfeatures"@.len()); }
        assert("tablevalues"@ != "specularconstant"@) by { assert("tablevalues"@.len() != "specularconstant"@.len()); }
        assert("tablevalues"@ != "specularexponent"@) by { assert("tablevalues"@.len() != "specularexponent"@.len()); }
        assert("tablevalues"@ != "spreadmethod"@) by { assert("tablevalues"@.len() != "spreadmethod"@.len()); }
        assert("tablevalues"@ != "startoffset"@) by { assert("tablevalues"@[0] != "startoffset"@[0]); }
        assert("tablevalues"@ != "stddeviation"@) by { assert("tablevalues"@.len() != "stddeviation"@.len()); }
        assert("tablevalues"@ != "stitchtiles"@) by { assert("tablevalues"@[0] != "stitchtiles"@[0]); }
        assert("tablevalues"@ != "surfacescale"@) by { assert("tablevalues"@.len() != "surfacescale"@.len()); }
        assert("tablevalues"@ != "systemlanguage"@) by { assert("tablevalues"@.len() != "systemlanguage"@.len()); }
    }
    assert(lower("tableValues"@) =~= "tablevalues"@);
}

proof fn attr_case_50()
    ensures
        svg_attr_case(lower("targetX"@)) == "targetX"@,
{
    reveal_strlit("targetX");
    reveal_strlit("attributename");
    reveal_strlit("attributetype");
    reveal_strlit("basefrequency");
    reveal_strlit("baseprofile");
    reveal_strlit("calcmode");
    reveal_strlit("clippathunits");
    reveal_strlit("diffuseconstant");
    reveal_strlit("edgemode");
    reveal_strlit("filterunits");
    reveal_strlit("glyphref");
    reveal_strlit("gradienttransform");
    reveal_strlit("gradientunits");
    reveal_strlit("kernelmatrix");
    reveal_strlit("kernelunitlength");
    reveal_strlit("keypoints");
    reveal_strlit("keysplines");
    reveal_strlit("keytimes");
    reveal_strlit("lengthadjust");
    reveal_strlit("limitingconeangle");
    reveal_strlit("markerheight");
    reveal_strlit("markerunits");
    reveal_strlit("markerwidth");
    reveal_strlit("maskcontentunits");
    reveal_strlit("maskunits");
    reveal_strlit("numoctaves");
    reveal_strlit("pathlength");
    reveal_strlit("patterncontentunits");
    reveal_strlit("patterntransform");
    reveal_strlit("patternunits");
    reveal_strlit("pointsatx");
    reveal_strlit("pointsaty");
    reveal_strlit("pointsatz");
    reveal_strlit("preservealpha");
    reveal_strlit("preserveaspectratio");
    reveal_strlit("primitiveunits");
    reveal_strlit("refx");
    reveal_strlit("refy");
    reveal_strlit("repeatcount");
    reveal_strlit("repeatdur");
    reveal_strlit("requiredextensions");
    reveal_strlit("requiredfeatures");
    reveal_strlit("specularconstant");
    reveal_strlit("specularexponent");
    reveal_strlit("spreadmethod");
    reveal_strlit("startoffset");
    reveal_strlit("stddeviation");
    reveal_strlit("stitchtiles");
    reveal_strlit("surfacescale");
    reveal_strlit("systemlanguage");
    reveal_strlit("tablevalues");
    reveal_strlit("targetx");
    assert(svg_attr_case("targetx"@) == "targetX"@) by {
        assert("targetx"@ != "attributename"@) by { assert("targetx"@.len() != "attributename"@.len()); }
        assert("targetx"@ != "attributetype"@) by { assert("targetx"@.len() != "attributetype"@.len()); }
        assert("targetx"@ != "basefrequency"@) by { assert("targetx"@.len() != "basefrequency"@.len()); }
        assert("targetx"@ != "baseprofile"@) by { assert("targetx"@.len() != "baseprofile"@.len()); }
        assert("targetx"@ != "calcmode"@) by { assert("targetx"@.len() != "calcmode"@.len()); }
        assert("targetx"@ != "clippathunits"@) by { assert("targetx"@.len() != "clippathunits"@.len()); }
        assert("targetx"@ != "diffuseconstant"@) by { assert("targetx"@.len() != "diffuseconstant"@.len()); }
        assert("targetx"@ != "edgemode"@) by { assert("targetx"@.len() != "edgemode"@.len()); }
        assert("targetx"@ != "filterunits"@) by { assert("targetx"@.len() != "filterunits"@.len()); }
        assert("targetx"@ != "glyphref"@) by { assert("targetx"@.len() != "glyphref"@.len()); }
        assert("targetx"@ != "gradienttransform"@) by { assert("targetx"@.len() != "gradienttransform"@.len()); }
        assert("targetx"@ != "gradientunits"@) by { assert("targetx"@.len() != "gradientunits"@.len()); }
        assert("targetx"@ != "kernelmatrix"@) by { assert("targetx"@.len() != "kernelmatrix"@.len()); }
        assert("targetx"@ != "kernelunitlength"@) by { assert("targetx"@.len() != "kernelunitlength"@.len()); }
        assert("targetx"@ != "keypoints"@) by { assert("targetx"@.len() != "keypoints"@.len()); }
        assert("targetx"@ != "keysplines"@) by { assert("targetx"@.len() != "keysplines"@.len()); }
        assert("targetx"@ != "keytimes"@) by { assert("targetx"@.len() != "keytimes"@.len()); }
        assert("targetx"@ != "lengthadjust"@) by { assert("targetx"@.len() != "lengthadjust"@.len()); }
        assert("targetx"@ != "limitingconeangle"@) by { assert("targetx"@.len() != "limitingconeangle"@.len()); }
        assert("targetx"@ != "markerheight"@) by { assert("targetx"@.len() != "markerheight"@.len()); }
        assert("targetx"@ != "markerunits"@) by { assert("targetx"@.len() != "markerunits"@.len()); }
        assert("targetx"@ != "markerwidth"@) by { assert("targetx"@.len() != "markerwidth"@.len()); }
        assert("targetx"@ != "maskcontentunits"@) by { assert("targetx"@.len() != "maskcontentunits"@.len()); }
        assert("targetx"@ != "maskunits"@) by { assert("targetx"@.len() != "maskunits"@.len()); }
        assert("targetx"@ != "numoctaves"@) by { assert("targetx"@.len() != "numoctaves"@.len()); }
        assert("targetx"@ != "pathlength"@) by { assert("targetx"@.len() != "pathlength"@.len()); }
        assert("targetx"@ != "patterncontentunits"@) by { assert("targetx"@.len() != "patterncontentunits"@.len()); }
        assert("targetx"@ != "patterntransform"@) by { assert("targetx"@.len() != "patterntransform"@.len()); }
        assert("targetx"@ != "patternunits"@) by { assert("targetx"@.len() != "patternunits"@.len()); }
        assert("targetx"@ != "pointsatx"@) by { assert("targetx"@.len() != "pointsatx"@.len()); }
        assert("targetx"@ != "pointsaty"@) by { assert("targetx"@.len() != "pointsaty"@.len()); }
        assert("targetx"@ != "pointsatz"@) by { assert("targetx"@.len() != "pointsatz"@.len()); }
        assert("targetx"@ != "preservealpha"@) by { assert("targetx"@.len() != "preservealpha"@.len()); }
        assert("targetx"@ != "preserveaspectratio"@) by { assert("targetx"@.len() != "preserveaspectratio"@.len()); }
        assert("targetx"@ != "primitiveunits"@) by { assert("targetx"@.len() != "primitiveunits"@.len()); }
        assert("targetx"@ != "refx"@) by { assert("targetx"@.len() != "refx"@.len()); }
        assert("targetx"@ != "refy"@) by { assert("targetx"@.len() != "refy"@.len()); }
        assert("targetx"@ != "repeatcount"@) by { assert("targetx"@.len() != "repeatcount"@.len()); }
        assert("targetx"@ != "repeatdur"@) by { assert("targetx"@.len() != "repeatdur"@.len()); }
        assert("targetx"@ != "requiredextensions"@) by { assert("targetx"@.len() != "requiredextensions"@.len()); }
        assert("targetx"@ != "requiredfeatures"@) by { assert("targetx"@.len() != "requiredfeatures"@.len()); }
        assert("targetx"@ != "specularconstant"@) by { assert("targetx"@.len() != "specularconstant"@.len()); }
        assert("targetx"@ != "specularexponent"@) by { assert("targetx"@.len() != "specularexponent"@.len()); }
        assert("targetx"@ != "spreadmethod"@) by { assert("targetx"@.len() != "spreadmethod"@.len()); }
        assert("targetx"@ != "startoffset"@) by { assert("targetx"@.len() != "startoffset"@.len()); }
        assert("targetx"@ != "stddeviation"@) by { assert("targetx"@.len() != "stddeviation"@.len()); }
        assert("targetx"@ != "stitchtiles"@) by { assert("targetx"@.len() != "stitchtiles"@.len()); }
        assert("targetx"@ != "surfacescale"@) by { assert("targetx"@.len() != "surfacescale"@.len()); }
        assert("targetx"@ != "systemlanguage"@) by { assert("targetx"@.len() != "systemlanguage"@.len()); }
        assert("targetx"@ != "tablevalues"@) by { assert("targetx"@.len() != "tablevalues"@.len()); }
    }
    assert(lower("targetX"@) =~= "targetx"@);
}

proof fn attr_case_51()
    ensures
        svg_attr_case(lower("targetY"@)) == "targetY"@,
{
    reveal_strlit("targetY");
    reveal_strlit("attributename");
    reveal_strlit("attributetype");
    reveal_strlit("basefrequency");
    reveal_strlit("baseprofile");
    reveal_strlit("calcmode");
    reveal_strlit("clippathunits");
    reveal_strlit("diffuseconstant");
    reveal_strlit("edgemode");
    reveal_strlit("filterunits");
    reveal_strlit("glyphref");
    reveal_strlit("gradienttransform");
    reveal_strlit("gradientunits");
    reveal_strlit("kernelmatrix");
    reveal_strlit("kernelunitlength");
    reveal_strlit("keypoints");
    reveal_strlit("keysplines");
    reveal_strlit("keytimes");
    reveal_strlit("lengthadjust");
    reveal_strlit("limitingconeangle");
    reveal_strlit("markerheight");
    reveal_strlit("markerunits");
    reveal_strlit("markerwidth");
    reveal_strlit("maskcontentunits");
    reveal_strlit("maskunits");
    reveal_strlit("numoctaves");
    reveal_strlit("pathlength");
    reveal_strlit("patterncontentunits");
    reveal_strlit("patterntransform");
    reveal_strlit("patternunits");
    reveal_strlit("pointsatx");
    reveal_strlit("pointsaty");
    reveal_strlit("pointsatz");
    reveal_strlit("preservealpha");
    reveal_strlit("preserveaspectratio");
    reveal_strlit("primitiveunits");
    reveal_strlit("refx");
    reveal_strlit("refy");
    reveal_strlit("repeatcount");
    reveal_strlit("repeatdur");
    reveal_strlit("requiredextensions");
    reveal_strlit("requiredfeatures");
    reveal_strlit("specularconstant");
    reveal_strlit("specularexponent");
    reveal_strlit("spreadmethod");
    reveal_strlit("startoffset");
    reveal_strlit("stddeviation");
    reveal_strlit("stitchtiles");
    reveal_strlit("surfacescale");
    reveal_strlit("systemlanguage");
    reveal_strlit("tablevalues");
    reveal_strlit("targetx");
    reveal_strlit("targety");
    assert(svg_attr_case("targety"@) == "targetY"@) by {
        assert("targety"@ != "attributename"@) by { assert("targety"@.len() != "attributename"@.len()); }
        assert("targety"@ != "attributetype"@) by { assert("targety"@.len() != "attributetype"@.len()); }
        assert("targety"@ != "basefrequency"@) by { assert("targety"@.len() != "basefrequency"@.len()); }
        assert("targety"@ != "baseprofile"@) by { assert("targety"@.len() != "baseprofile"@.len()); }
        assert("targety"@ != "calcmode"@) by { assert("targety"@.len() != "calcmode"@.len()); }
        assert("targety"@ != "clippathunits"@) by { assert("targety"@.len() != "clippathunits"@.len()); }
        assert("targety"@ != "diffuseconstant"@) by { assert("targety"@.len() != "diffuseconstant"@.len()); }
        assert("targety"@ != "edgemode"@) by { assert("targety"@.len() != "edgemode"@.len()); }
        assert("targety"@ != "filterunits"@) by { assert("targety"@.len() != "filterunits"@.len()); }
        assert("targety"@ != "glyphref"@) by { assert("targety"@.len() != "glyphref"@.len()); }
        assert("targety"@ != "gradienttransform"@) by { assert("targety"@.len() != "gradienttransform"@.len()); }
        assert("targety"@ != "gradientunits"@) by { assert("targety"@.len() != "gradientunits"@.len()); }
        assert("targety"@ != "kernelmatrix"@) by { assert("targety"@.len() != "kernelmatrix"@.len()); }
        assert("targety"@ != "kernelunitlength"@) by { assert("targety"@.len() != "kernelunitlength"@.len()); }
        assert("targety"@ != "keypoints"@) by { assert("targety"@.len() != "keypoints"@.len()); }
        assert("targety"@ != "keysplines"@) by { assert("targety"@.len() != "keysplines"@.len()); }
        assert("targety"@ != "keytimes"@) by { assert("targety"@.len() != "keytimes"@.len()); }
        assert("targety"@ != "lengthadjust"@) by { assert("targety"@.len() != "lengthadjust"@.len()); }
        assert("targety"@ != "limitingconeangle"@) by { assert("targety"@.len() != "limitingconeangle"@.len()); }
        assert("targety"@ != "markerheight"@) by { assert("targety"@.len() != "markerheight"@.len()); }
        assert("targety"@ != "markerunits"@) by { assert("targety"@.len() != "markerunits"@.len()); }
        assert("targety"@ != "markerwidth"@) by { assert("targety"@.len() != "markerwidth"@.len()); }
        assert("targety"@ != "maskcontentunits"@) by { assert("targety"@.len() != "maskcontentunits"@.len()); }
        assert("targety"@ != "maskunits"@) by { assert("targety"@.len() != "maskunits"@.len()); }
        assert("targety"@ != "numoctaves"@) by { assert("targety"@.len() != "numoctaves"@.len()); }
        assert("targety"@ != "pathlength"@) by { assert("targety"@.len() != "pathlength"@.len()); }
        assert("targety"@ != "patterncontentunits"@) by { assert("targety"@.len() != "patterncontentunits"@.len()); }
        assert("targety"@ != "patterntransform"@) by { assert("targety"@.len() != "patterntransform"@.len()); }
        assert("targety"@ != "patternunits"@) by { assert("targety"@.len() != "patternunits"@.len()); }
        assert("targety"@ != "pointsatx"@) by { assert("targety"@.len() != "pointsatx"@.len()); }
        assert("targety"@ != "pointsaty"@) by { assert("targety"@.len() != "pointsaty"@.len()); }
        assert("targety"@ != "pointsatz"@) by { assert("targety"@.len() != "pointsatz"@.len()); }
        assert("targety"@ != "preservealpha"@) by { assert("targety"@.len() != "preservealpha"@.len()); }
        assert("targety"@ != "preserveaspectratio"@) by { assert("targety"@.len() != "preserveaspectratio"@.len()); }
        assert("targety"@ != "primitiveunits"@) by { assert("targety"@.len() != "primitiveunits"@.len()); }
        assert("targety"@ != "refx"@) by { assert("targety"@.len() != "refx"@.len()); }
        assert("targety"@ != "refy"@) by { assert("targety"@.len() != "refy"@.len()); }
        assert("targety"@ != "repeatcount"@) by { assert("targety"@.len() != "repeatcount"@.len()); }
        assert("targety"@ != "repeatdur"@) by { assert("targety"@.len() != "repeatdur"@.len()); }
        assert("targety"@ != "requiredextensions"@) by { assert("targety"@.len() != "requiredextensions"@.len()); }
        assert("targety"@ != "requiredfeatures"@) by { assert("targety"@.len() != "requiredfeatures"@.len()); }
        assert("targety"@ != "specularconstant"@) by { assert("targety"@.len() != "specularconstant"@.len()); }
        assert("targety"@ != "specularexponent"@) by { assert("targety"@.len() != "specularexponent"@.len()); }
        assert("targety"@ != "spreadmethod"@) by { assert("targety"@.len() != "spreadmethod"@.len()); }
        assert("targety"@ != "startoffset"@) by { assert("targety"@.len() != "startoffset"@.len()); }
        assert("targety"@ != "stddeviation"@) by { assert("targety"@.len() != "stddeviation"@.len()); }
        assert("targety"@ != "stitchtiles"@) by { assert("targety"@.len() != "stitchtiles"@.len()); }
        assert("targety"@ != "surfacescale"@) by { assert("targety"@.len() != "surfacescale"@.len()); }
        assert("targety"@ != "systemlanguage"@) by { assert("targety"@.len() != "systemlanguage"@.len()); }
        assert("targety"@ != "tablevalues"@) by { assert("targety"@.len() != "tablevalues"@.len()); }
        assert("targety"@ != "targetx"@) by { assert("targety"@[6] != "targetx"@[6]); }
    }
    assert(lower("targetY"@) =~= "targety"@);
}

proof fn attr_case_52()
    ensures
        svg_attr_case(lower("textLength"@)) == "textLength"@,
{
    reveal_strlit("textLength");
    reveal_strlit("attributename");
    reveal_strlit("attributetype");
    reveal_strlit("basefrequency");
    reveal_strlit("baseprofile");
    reveal_strlit("calcmode");
    reveal_strlit("clippathunits");
    reveal_strlit("diffuseconstant");
    reveal_strlit("edgemode");
    reveal_strlit("filterunits");
    reveal_strlit("glyphref");
    reveal_strlit("gradienttransform");
    reveal_strlit("gradientunits");
    reveal_strlit("kernelmatrix");
    reveal_strlit("kernelunitlength");
    reveal_strlit("keypoints");
    reveal_strlit("keysplines");
    reveal_strlit("keytimes");
    reveal_strlit("lengthadjust");
    reveal_strlit("limitingconeangle");
    reveal_strlit("markerheight");
    reveal_strlit("markerunits");
    reveal_strlit("markerwidth");
    reveal_strlit("maskcontentunits");
    reveal_strlit("maskunits");
    reveal_strlit("numoctaves");
    reveal_strlit("pathlength");
    reveal_strlit("patterncontentunits");
    reveal_strlit("patterntransform");
    reveal_strlit("patternunits");
    reveal_strlit("pointsatx");
    reveal_strlit("pointsaty");
    reveal_strlit("pointsatz");
    reveal_strlit("preservealpha");
    reveal_strlit("preserveaspectratio");
    reveal_strlit("primitiveunits");
    reveal_strlit("refx");
    reveal_strlit("refy");
    reveal_strlit("repeatcount");
    reveal_strlit("repeatdur");
    reveal_strlit("requiredextensions");
    reveal_strlit("requiredfeatures");
    reveal_strlit("specularconstant");
    reveal_strlit("specularexponent");
    reveal_strlit("spreadmethod");
    reveal_strlit("startoffset");
    reveal_strlit("stddeviation");
    reveal_strlit("stitchtiles");
    reveal_strlit("surfacescale");
    reveal_strlit("systemlanguage");
    reveal_strlit("tablevalues");
    reveal_strlit("targetx");
    reveal_strlit("targety");
    reveal_strlit("textlength");
    assert(svg_attr_case("textlength"@) == "textLength"@) by {
        assert("textlength"@ != "attributename"@) by { assert("textlength"@.len() != "attributename"@.len()); }
        assert("textlength"@ != "attributetype"@) by { assert("textlength"@.len() != "attributetype"@.len()); }
        assert("textlength"@ != "basefrequency"@) by { assert("textlength"@.len() != "basefrequency"@.len()); }
        assert("textlength"@ != "baseprofile"@) by { assert("textlength"@.len() != "baseprofile"@.len()); }
        assert("textlength"@ != "calcmode"@) by { assert("textlength"@.len() != "calcmode"@.len()); }
        assert("textlength"@ != "clippathunits"@) by { assert("textlength"@.len() != "clippathunits"@.len()); }
        assert("textlength"@ != "diffuseconstant"@) by { assert("textlength"@.len() != "diffuseconstant"@.len()); }
        assert("textlength"@ != "edgemode"@) by { assert("textlength"@.len() != "edgemode"@.len()); }
        assert("textlength"@ != "filterunits"@) by { assert("textlength"@.len() != "filterunits"@.len()); }
        assert("textlength"@ != "glyphref"@) by { assert("textlength"@.len() != "glyphref"@.len()); }
        assert("textlength"@ != "gradienttransform"@) by { assert("textlength"@.len() != "gradienttransform"@.len()); }
        assert("textlength"@ != "gradientunits"@) by { assert("textlength"@.len() != "gradientunits"@.len()); }
        assert("textlength"@ != "kernelmatrix"@) by { assert("textlength"@.len() != "kernelmatrix"@.len()); }
        assert("textlength"@ != "kernelunitlength"@) by { assert("textlength"@.len() != "kernelunitlength"@.len()); }
        assert("textlength"@ != "keypoints"@) by { assert("textlength"@.len() != "keypoints"@.len()); }
        assert("textlength"@ != "keysplines"@) by { assert("textlength"@[0] != "keysplines"@[0]); }
        assert("textlength"@ != "keytimes"@) by { assert("textlength"@.len() != "keytimes"@.len()); }
        assert("textlength"@ != "lengthadjust"@) by { assert("textlength"@.len() != "lengthadjust"@.len()); }
        assert("textlength"@ != "limitingconeangle"@) by { assert("textlength"@.len() != "limitingconeangle"@.len()); }
        assert("textlength"@ != "markerheight"@) by { assert("textlength"@.len() != "markerheight"@.len()); }
        assert("textlength"@ != "markerunits"@) by { assert("textlength"@.len() != "markerunits"@.len()); }
        assert("textlength"@ != "markerwidth"@) by { assert("textlength"@.len() != "markerwidth"@.len()); }
        assert("textlength"@ != "maskcontentunits"@) by { assert("textlength"@.len() != "maskcontentunits"@.len()); }
        assert("textlength"@ != "maskunits"@) by { assert("textlength"@.len() != "maskunits"@.len()); }
        assert("textlength"@ != "numoctaves"@) by { assert("textlength"@[0] != "numoctaves"@[0]); }
        assert("textlength"@ != "pathlength"@) by { assert("textlength"@[0] != "pathlength"@[0]); }
        assert("textlength"@ != "patterncontentunits"@) by { assert("textlength"@.len() != "patterncontentunits"@.len()); }
        assert("textlength"@ != "patterntransform"@) by { assert("textlength"@.len() != "patterntransform"@.len()); }
        assert("textlength"@ != "patternunits"@) by { assert("textlength"@.len() != "patternunits"@.len()); }
        assert("textlength"@ != "pointsatx"@) by { assert("textlength"@.len() != "pointsatx"@.len()); }
        assert("textlength"@ != "pointsaty"@) by { assert("textlength"@.len() != "pointsaty"@.len()); }
        assert("textlength"@ != "pointsatz"@) by { assert("textlength"@.len() != "pointsatz"@.len()); }
        assert("textlength"@ != "preservealpha"@) by { assert("textlength"@.len() != "preservealpha"@.len()); }
        assert("textlength"@ != "preserveaspectratio"@) by { assert("textlength"@.len() != "preserveaspectratio"@.len()); }
        assert("textlength"@ != "primitiveunits"@) by { assert("textlength"@.len() != "primitiveunits"@.len()); }
        assert("textlength"@ != "refx"@) by { assert("textlength"@.len() != "refx"@.len()); }
        assert("textlength"@ != "refy"@) by { assert("textlength"@.len() != "refy"@.len()); }
        assert("textlength"@ != "repeatcount"@) by { assert("textlength"@.len() != "repeatcount"@.len()); }
        assert("textlength"@ != "repeatdur"@) by { assert("textlength"@.len() != "repeatdur"@.len()); }
        assert("textlength"@ != "requiredextensions"@) by { assert("textlength"@.len() != "requiredextensions"@.len()); }
        assert("textlength"@ != "requiredfeatures"@) by { assert("textlength"@.len() != "requiredfeatures"@.len()); }
        assert("textlength"@ != "specularconstant"@) by { assert("textlength"@.len() != "specularconstant"@.len()); }
        assert("textlength"@ != "specularexponent"@) by { assert("textlength"@.len() != "specularexponent"@.len()); }
        assert("textlength"@ != "spreadmethod"@) by { assert("textlength"@.len() != "spreadmethod"@.len()); }
        assert("textlength"@ != "startoffset"@) by { assert("textlength"@.len() != "startoffset"@.len()); }
        assert("textlength"@ != "stddeviation"@) by { assert("textlength"@.len() != "stddeviation"@.len()); }
        assert("textlength"@ != "stitchtiles"@) by { assert("textlength"@.len() != "stitchtiles"@.len()); }
        assert("textlength"@ != "surfacescale"@) by { assert("textlength"@.len() != "surfacescale"@.len()); }
        assert("textlength"@ != "systemlanguage"@) by { assert("textlength"@.len() != "systemlanguage"@.len()); }
        assert("textlength"@ != "tablevalues"@) by { assert("textlength"@.len() != "tablevalues"@.len()); }
        assert("textlength"@ != "targetx"@) by { assert("textlength"@.len() != "targetx"@.len()); }
        assert("textlength"@ != "targety"@) by { assert("textlength"@.len() != "targety"@.len()); }
    }
    assert(lower("textLength"@) =~= "textlength"@);
}

proof fn attr_case_53()
    ensures
        svg_attr_case(lower("viewBox"@)) == "viewBox"@,
{
    reveal_strlit("viewBox");
    reveal_strlit("attributename");
    reveal_strlit("attributetype");
    reveal_strlit("basefrequency");
    reveal_strlit("baseprofile");
    reveal_strlit("calcmode");
    reveal_strlit("clippathunits");
    reveal_strlit("diffuseconstant");
    reveal_strlit("edgemode");
    reveal_strlit("filterunits");
    reveal_strlit("glyphref");
    reveal_strlit("gradienttransform");
    reveal_strlit("gradientunits");
    reveal_strlit("kernelmatrix");
    reveal_strlit("kernelunitlength");
    reveal_strlit("keypoints");
    reveal_strlit("keysplines");
    reveal_strlit("keytimes");
    reveal_strlit("lengthadjust");
    reveal_strlit("limitingconeangle");
    reveal_strlit("markerheight");
    reveal_strlit("markerunits");
    reveal_strlit("markerwidth");
    reveal_strlit("maskcontentunits");
    reveal_strlit("maskunits");
    reveal_strlit("numoctaves");
    reveal_strlit("pathlength");
    reveal_strlit("patterncontentunits");
    reveal_strlit("patterntransform");
    reveal_strlit("patternunits");
    reveal_strlit("pointsatx");
    reveal_strlit("pointsaty");
    reveal_strlit("pointsatz");
    reveal_strlit("preservealpha");
    reveal_strlit("preserveaspectratio");
    reveal_strlit("primitiveunits");
    reveal_strlit("refx");
    reveal_strlit("refy");
    reveal_strlit("repeatcount");
    reveal_strlit("repeatdur");
    reveal_strlit("requiredextensions");
    reveal_strlit("requiredfeatures");
    reveal_strlit("specularconstant");
    reveal_strlit("specularexponent");
    reveal_strlit("spreadmethod");
    reveal_strlit("startoffset");
    reveal_strlit("stddeviation");
    reveal_strlit("stitchtiles");
    reveal_strlit("surfacescale");
    reveal_strlit("systemlanguage");
    reveal_strlit("tablevalues");
    reveal_strlit("targetx");
    reveal_strlit("targety");
    reveal_strlit("textlength");
    reveal_strlit("viewbox");
    assert(svg_attr_case("viewbox"@) == "viewBox"@) by {
        assert("viewbox"@ != "attributename"@) by { assert("viewbox"@.len() != "attributename"@.len()); }
        assert("viewbox"@ != "attributetype"@) by { assert("viewbox"@.len() != "attributetype"@.len()); }
        assert("viewbox"@ != "basefrequency"@) by { assert("viewbox"@.len() != "basefrequency"@.len()); }
        assert("viewbox"@ != "baseprofile"@) by { assert("viewbox"@.len() != "baseprofile"@.len()); }
        assert("viewbox"@ != "calcmode"@) by { assert("viewbox"@.len() != "calcmode"@.len()); }
        assert("viewbox"@ != "clippathunits"@) by { assert("viewbox"@.len() != "clippathunits"@.len()); }
        assert("viewbox"@ != "diffuseconstant"@) by { assert("viewbox"@.len() != "diffuseconstant"@.len()); }
        assert("viewbox"@ != "edgemode"@) by { assert("viewbox"@.len() != "edgemode"@.len()); }
        assert("viewbox"@ != "filterunits"@) by { assert("viewbox"@.len() != "filterunits"@.len()); }
        assert("viewbox"@ != "glyphref"@) by { assert("viewbox"@.len() != "glyphref"@.len()); }
        assert("viewbox"@ != "gradienttransform"@) by { assert("viewbox"@.len() != "gradienttransform"@.len()); }
        assert("viewbox"@ != "gradientunits"@) by { assert("viewbox"@.len() != "gradientunits"@.len()); }
        assert("viewbox"@ != "kernelmatrix"@) by { assert("viewbox"@.len() != "kernelmatrix"@.len()); }
        assert("viewbox"@ != "kernelunitlength"@) by { assert("viewbox"@.len() != "kernelunitlength"@.len()); }
        assert("viewbox"@ != "keypoints"@) by { assert("viewbox"@.len() != "keypoints"@.len()); }
        assert("viewbox"@ != "keysplines"@) by { assert("viewbox"@.len() != "keysplines"@.len()); }
        assert("viewbox"@ != "keytimes"@) by { assert("viewbox"@.len() != "keytimes"@.len()); }
        assert("viewbox"@ != "lengthadjust"@) by { assert("viewbox"@.len() != "lengthadjust"@.len()); }
        assert("viewbox"@ != "limitingconeangle"@) by { assert("viewbox"@.len() != "limitingconeangle"@.len()); }
        assert("viewbox"@ != "markerheight"@) by { assert("viewbox"@.len() != "markerheight"@.len()); }
        assert("viewbox"@ != "markerunits"@) by { assert("viewbox"@.len() != "markerunits"@.len()); }
        assert("viewbox"@ != "markerwidth"@) by { assert("viewbox"@.len() != "markerwidth"@.len()); }
        assert("viewbox"@ != "maskcontentunits"@) by { assert("viewbox"@.len() != "maskcontentunits"@.len()); }
        assert("viewbox"@ != "maskunits"@) by { assert("viewbox"@.len() != "maskunits"@.len()); }
        assert("viewbox"@ != "numoctaves"@) by { assert("viewbox"@.len() != "numoctaves"@.len()); }
        assert("viewbox"@ != "pathlength"@) by { assert("viewbox"@.len() != "pathlength"@.len()); }
        assert("viewbox"@ != "patterncontentunits"@) by { assert("viewbox"@.len() != "patterncontentunits"@.len()); }
        assert("viewbox"@ != "patterntransform"@) by { assert("viewbox"@.len() != "patterntransform"@.len()); }
        assert("viewbox"@ != "patternunits"@) by { assert("viewbox"@.len() != "patternunits"@.len()); }
        assert("viewbox"@ != "pointsatx"@) by { assert("viewbox"@.len() != "pointsatx"@.len()); }
        assert("viewbox"@ != "pointsaty"@) by { assert("viewbox"@.len() != "pointsaty"@.len()); }
        assert("viewbox"@ != "pointsatz"@) by { assert("viewbox"@.len() != "pointsatz"@.len()); }
        assert("viewbox"@ != "preservealpha"@) by { assert("viewbox"@.len() != "preservealpha"@.len()); }
        assert("viewbox"@ != "preserveaspectratio"@) by { assert("viewbox"@.len() != "preserveaspectratio"@.len()); }
        assert("viewbox"@ != "primitiveunits"@) by { assert("viewbox"@.len() != "primitiveunits"@.len()); }
        assert("viewbox"@ != "refx"@) by { assert("viewbox"@.len() != "refx"@.len()); }
        assert("viewbox"@ != "refy"@) by { assert("viewbox"@.len() != "refy"@.len()); }
        assert("viewbox"@ != "repeatcount"@) by { assert("viewbox"@.len() != "repeatcount"@.len()); }
        assert("viewbox"@ != "repeatdur"@) by { assert("viewbox"@.len() != "repeatdur"@.len()); }
        assert("viewbox"@ != "requiredextensions"@) by { assert("viewbox"@.len() != "requiredextensions"@.len()); }
        assert("viewbox"@ != "requiredfeatures"@) by { assert("viewbox"@.len() != "requiredfeatures"@.len()); }
        assert("viewbox"@ != "specularconstant"@) by { assert("viewbox"@.len() != "specularconstant"@.len()); }
        assert("viewbox"@ != "specularexponent"@) by { assert("viewbox"@.len() != "specularexponent"@.len()); }
        assert("viewbox"@ != "spreadmethod"@) by { assert("viewbox"@.len() != "spreadmethod"@.len()); }
        assert("viewbox"@ != "startoffset"@) by { assert("viewbox"@.len() != "startoffset"@.len()); }
        assert("viewbox"@ != "stddeviation"@) by { assert("viewbox"@.len() != "stddeviation"@.len()); }
        assert("viewbox"@ != "stitchtiles"@) by { assert("viewbox"@.len() != "stitchtiles"@.len()); }
        assert("viewbox"@ != "surfacescale"@) by { assert("viewbox"@.len() != "surfacescale"@.len()); }
        assert("viewbox"@ != "systemlanguage"@) by { assert("viewbox"@.len() != "systemlanguage"@.len()); }
        assert("viewbox"@ != "tablevalues"@) by { assert("viewbox"@.len() != "tablevalues"@.len()); }
        assert("viewbox"@ != "targetx"@) by { assert("viewbox"@[0] != "targetx"@[0]); }
        assert("viewbox"@ != "targety"@) by { assert("viewbox"@[0] != "targety"@[0]); }
        assert("viewbox"@ != "textlength"@) by { assert("viewbox"@.len() != "textlength"@.len()); }
    }
    assert(lower("viewBox"@) =~= "viewbox"@);
}

proof fn attr_case_54()
    ensures
        svg_attr_case(lower("viewTarget"@)) == "viewTarget"@,
{
    reveal_strlit("viewTarget");
    reveal_strlit("attributename");
    reveal_strlit("attributetype");
    reveal_strlit("basefrequency");
    reveal_strlit("baseprofile");
    reveal_strlit("calcmode");
    reveal_strlit("clippathunits");
    reveal_strlit("diffuseconstant");
    reveal_strlit("edgemode");
    reveal_strlit("filterunits");
    reveal_strlit("glyphref");
    reveal_strlit("gradienttransform");
    reveal_strlit("gradientunits");
    reveal_strlit("kernelmatrix");
    reveal_strlit("kernelunitlength");
    reveal_strlit("keypoints");
    reveal_strlit("keysplines");
    reveal_strlit("keytimes");
    reveal_strlit("lengthadjust");
    reveal_strlit("limitingconeangle");
    reveal_strlit("markerheight");
    reveal_strlit("markerunits");
    reveal_strlit("markerwidth");
    reveal_strlit("maskcontentunits");
    reveal_strlit("maskunits");
    reveal_strlit("numoctaves");
    reveal_strlit("pathlength");
    reveal_strlit("patterncontentunits");
    reveal_strlit("patterntransform");
    reveal_strlit("patternunits");
    reveal_strlit("pointsatx");
    reveal_strlit("pointsaty");
    reveal_strlit("pointsatz");
    reveal_strlit("preservealpha");
    reveal_strlit("preserveaspectratio");
    reveal_strlit("primitiveunits");
    reveal_strlit("refx");
    reveal_strlit("refy");
    reveal_strlit("repeatcount");
    reveal_strlit("repeatdur");
    reveal_strlit("requiredextensions");
    reveal_strlit("requiredfeatures");
    reveal_strlit("specularconstant");
    reveal_strlit("specularexponent");
    reveal_strlit("spreadmethod");
    reveal_strlit("startoffset");
    reveal_strlit("stddeviation");
    reveal_strlit("stitchtiles");
    reveal_strlit("surfacescale");
    reveal_strlit("systemlanguage");
    reveal_strlit("tablevalues");
    reveal_strlit("targetx");
    reveal_strlit("targety");
    reveal_strlit("textlength");
    reveal_strlit("viewbox");
    reveal_strlit("viewtarget");
    assert(svg_attr_case("viewtarget"@) == "viewTarget"@) by {
        assert("viewtarget"@ != "attributename"@) by { assert("viewtarget"@.len() != "attributename"@.len()); }
        assert("viewtarget"@ != "attributetype"@) by { assert("viewtarget"@.len() != "attributetype"@.len()); }
        assert("viewtarget"@ != "basefrequency"@) by { assert("viewtarget"@.len() != "basefrequency"@.len()); }
        assert("viewtarget"@ != "baseprofile"@) by { assert("viewtarget"@.len() != "baseprofile"@.len()); }
        assert("viewtarget"@ != "calcmode"@) by { assert("viewtarget"@.len() != "calcmode"@.len()); }
        assert("viewtarget"@ != "clippathunits"@) by { assert("viewtarget"@.len() != "clippathunits"@.len()); }
        assert("viewtarget"@ != "diffuseconstant"@) by { assert("viewtarget"@.len() != "diffuseconstant"@.len()); }
        assert("viewtarget"@ != "edgemode"@) by { assert("viewtarget"@.len() != "edgemode"@.len()); }
        assert("viewtarget"@ != "filterunits"@) by { assert("viewtarget"@.len() != "filterunits"@.len()); }
        assert("viewtarget"@ != "glyphref"@) by { assert("viewtarget"@.len() != "glyphref"@.len()); }
        assert("viewtarget"@ != "gradienttransform"@) by { assert("viewtarget"@.len() != "gradienttransform"@.len()); }
        assert("viewtarget"@ != "gradientunits"@) by { assert("viewtarget"@.len() != "gradientunits"@.len()); }
        assert("viewtarget"@ != "kernelmatrix"@) by { assert("viewtarget"@.len() != "kernelmatrix"@.len()); }
        assert("viewtarget"@ != "kernelunitlength"@) by { assert("viewtarget"@.len() != "kernelunitlength"@.len()); }
        assert("viewtarget"@ != "keypoints"@) by { assert("viewtarget"@.len() != "keypoints"@.len()); }
        assert("viewtarget"@ != "keysplines"@) by { assert("viewtarget"@[0] != "keysplines"@[0]); }
        assert("viewtarget"@ != "keytimes"@) by { assert("viewtarget"@.len() != "keytimes"@.len()); }
        assert("viewtarget"@ != "lengthadjust"@) by { assert("viewtarget"@.len() != "lengthadjust"@.len()); }
        assert("viewtarget"@ != "limitingconeangle"@) by { assert("viewtarget"@.len() != "limitingconeangle"@.len()); }
        assert("viewtarget"@ != "markerheight"@) by { assert("viewtarget"@.len() != "markerheight"@.len()); }
        assert("viewtarget"@ != "markerunits"@) by { assert("viewtarget"@.len() != "markerunits"@.len()); }
        assert("viewtarget"@ != "markerwidth"@) by { assert("viewtarget"@.len() != "markerwidth"@.len()); }
        assert("viewtarget"@ != "maskcontentunits"@) by { assert("viewtarget"@.len() != "maskcontentunits"@.len()); }
        assert("viewtarget"@ != "maskunits"@) by { assert("viewtarget"@.len() != "maskunits"@.len()); }
        assert("viewtarget"@ != "numoctaves"@) by { assert("viewtarget"@[0] != "numoctaves"@[0]); }
        assert("viewtarget"@ != "pathlength"@) by { assert("viewtarget"@[0] != "pathlength"@[0]); }
        assert("viewtarget"@ != "patterncontentunits"@) by { assert("viewtarget"@.len() != "patterncontentunits"@.len()); }
        assert("viewtarget"@ != "patterntransform"@) by { assert("viewtarget"@.len() != "patterntransform"@.len()); }
        assert("viewtarget"@ != "patternunits"@) by { assert("viewtarget"@.len() != "patternunits"@.len()); }
        assert("viewtarget"@ != "pointsatx"@) by { assert("viewtarget"@.len() != "pointsatx"@.len()); }
        assert("viewtarget"@ != "pointsaty"@) by { assert("viewtarget"@.len() != "pointsaty"@.len()); }
        assert("viewtarget"@ != "pointsatz"@) by { assert("viewtarget"@.len() != "pointsatz"@.len()); }
        assert("viewtarget"@ != "preservealpha"@) by { assert("viewtarget"@.len() != "preservealpha"@.len()); }
        assert("viewtarget"@ != "preserveaspectratio"@) by { assert("viewtarget"@.len() != "preserveaspectratio"@.len()); }
        assert("viewtarget"@ != "primitiveunits"@) by { assert("viewtarget"@.len() != "primitiveunits"@.len()); }
        assert("viewtarget"@ != "refx"@) by { assert("viewtarget"@.len() != "refx"@.len()); }
        assert("viewtarget"@ != "refy"@) by { assert("viewtarget"@.len() != "refy"@.len()); }
        assert("viewtarget"@ != "repeatcount"@) by { assert("viewtarget"@.len() != "repeatcount"@.len()); }
        assert("viewtarget"@ != "repeatdur"@) by { assert("viewtarget"@.len() != "repeatdur"@.len()); }
        assert("viewtarget"@ != "requiredextensions"@) by { assert("viewtarget"@.len() != "requiredextensions"@.len()); }
        assert("viewtarget"@ != "requiredfeatures"@) by { assert("viewtarget"@.len() != "requiredfeatures"@.len()); }
        assert("viewtarget"@ != "specularconstant"@) by { assert("viewtarget"@.len() != "specularconstant"@.len()); }
        assert("viewtarget"@ != "specularexponent"@) by { assert("viewtarget"@.len() != "specularexponent"@.len()); }
        assert("viewtarget"@ != "spreadmethod"@) by { assert("viewtarget"@.len() != "spreadmethod"@.len()); }
        assert("viewtarget"@ != "startoffset"@) by { assert("viewtarget"@.len() != "startoffset"@.len()); }
        assert("viewtarget"@ != "stddeviation"@) by { assert("viewtarget"@.len() != "stddeviation"@.len()); }
        assert("viewtarget"@ != "stitchtiles"@) by { assert("viewtarget"@.len() != "stitchtiles"@.len()); }
        assert("viewtarget"@ != "surfacescale"@) by { assert("viewtarget"@.len() != "surfacescale"@.len()); }
        assert("viewtarget"@ != "systemlanguage"@) by { assert("viewtarget"@.len() != "systemlanguage"@.len()); }
        assert("viewtarget"@ != "tablevalues"@) by { assert("viewtarget"@.len() != "tablevalues"@.len()); }
        assert("viewtarget"@ != "targetx"@) by { assert("viewtarget"@.len() != "targetx"@.len()); }
        assert("viewtarget"@ != "targety"@) by { assert("viewtarget"@.len() != "targety"@.len()); }
        assert("viewtarget"@ != "textlength"@) by { assert("viewtarget"@[0] != "textlength"@[0]); }
        assert("viewtarget"@ != "viewbox"@) by { assert("viewtarget"@.len() != "viewbox"@.len()); }
    }
    assert(lower("viewTarget"@) =~= "viewtarget"@);
}

proof fn attr_case_55()
    ensures
        svg_attr_case(lower("xChannelSelector"@)) == "xChannelSelector"@,
{
    reveal_strlit("xChannelSelector");
    reveal_strlit("attributename");
    reveal_strlit("attributetype");
    reveal_strlit("basefrequency");
    reveal_strlit("baseprofile");
    reveal_strlit("calcmode");
    reveal_strlit("clippathunits");
    reveal_strlit("diffuseconstant");
    reveal_strlit("edgemode");
    reveal_strlit("filterunits");
    reveal_strlit("glyphref");
    reveal_strlit("gradienttransform");
    reveal_strlit("gradientunits");
    reveal_strlit("kernelmatrix");
    reveal_strlit("kernelunitlength");
    reveal_strlit("keypoints");
    reveal_strlit("keysplines");
    reveal_strlit("keytimes");
    reveal_strlit("lengthadjust");
    reveal_strlit("limitingconeangle");
    reveal_strlit("markerheight");
    reveal_strlit("markerunits");
    reveal_strlit("markerwidth");
    reveal_strlit("maskcontentunits");
    reveal_strlit("maskunits");
    reveal_strlit("numoctaves");
    reveal_strlit("pathlength");
    reveal_strlit("patterncontentunits");
    reveal_strlit("patterntransform");
    reveal_strlit("patternunits");
    reveal_strlit("pointsatx");
    reveal_strlit("pointsaty");
    reveal_strlit("pointsatz");
    reveal_strlit("preservealpha");
    reveal_strlit("preserveaspectratio");
    reveal_strlit("primitiveunits");
    reveal_strlit("refx");
    reveal_strlit("refy");
    reveal_strlit("repeatcount");
    reveal_strlit("repeatdur");
    reveal_strlit("requiredextensions");
    reveal_strlit("requiredfeatures");
    reveal_strlit("specularconstant");
    reveal_strlit("specularexponent");
    reveal_strlit("spreadmethod");
    reveal_strlit("startoffset");
    reveal_strlit("stddeviation");
    reveal_strlit("stitchtiles");
    reveal_strlit("surfacescale");
    reveal_strlit("systemlanguage");
    reveal_strlit("tablevalues");
    reveal_strlit("targetx");
    reveal_strlit("targety");
    reveal_strlit("textlength");
    reveal_strlit("viewbox");
    reveal_strlit("viewtarget");
    reveal_strlit("xchannelselector");
    assert(svg_attr_case("xchannelselector"@) == "xChannelSelector"@) by {
        assert("xchannelselector"@ != "attributename"@) by { assert("xchannelselector"@.len() != "attributename"@.len()); }
        assert("xchannelselector"@ != "attributetype"@) by { assert("xchannelselector"@.len() != "attributetype"@.len()); }
        assert("xchannelselector"@ != "basefrequency"@) by { assert("xchannelselector"@.len() != "basefrequency"@.len()); }
        assert("xchannelselector"@ != "baseprofile"@) by { assert("xchannelselector"@.len() != "baseprofile"@.len()); }
        assert("xchannelselector"@ != "calcmode"@) by { assert("xchannelselector"@.len() != "calcmode"@.len()); }
        assert("xchannelselector"@ != "clippathunits"@) by { assert("xchannelselector"@.len() != "clippathunits"@.len()); }
        assert("xchannelselector"@ != "diffuseconstant"@) by { assert("xchannelselector"@.len() != "diffuseconstant"@.len()); }
        assert("xchannelselector"@ != "edgemode"@) by { assert("xchannelselector"@.len() != "edgemode"@.len()); }
        assert("xchannelselector"@ != "filterunits"@) by { assert("xchannelselector"@.len() != "filterunits"@.len()); }
        assert("xchannelselector"@ != "glyphref"@) by { assert("xchannelselector"@.len() != "glyphref"@.len()); }
        assert("xchannelselector"@ != "gradienttransform"@) by { assert("xchannelselector"@.len() != "gradienttransform"@.len()); }
        assert("xchannelselector"@ != "gradientunits"@) by { assert("xchannelselector"@.len() != "gradientunits"@.len()); }
        assert("xchannelselector"@ != "kernelmatrix"@) by { assert("xchannelselector"@.len() != "kernelmatrix"@.len()); }
        assert("xchannelselector"@ != "kernelunitlength"@) by { assert("xchannelselector"@[0] != "kernelunitlength"@[0]); }
        assert("xchannelselector"@ != "keypoints"@) by { assert("xchannelselector"@.len() != "keypoints"@.len()); }
        assert("xchannelselector"@ != "keysplines"@) by { assert("xchannelselector"@.len() != "keysplines"@.len()); }
        assert("xchannelselector"@ != "keytimes"@) by { assert("xchannelselector"@.len() != "keytimes"@.len()); }
        assert("xchannelselector"@ != "lengthadjust"@) by { assert("xchannelselector"@.len() != "lengthadjust"@.len()); }
        assert("xchannelselector"@ != "limitingconeangle"@) by { assert("xchannelselector"@.len() != "limitingconeangle"@.len()); }
        assert("xchannelselector"@ != "markerheight"@) by { assert("xchannelselector"@.len() != "markerheight"@.len()); }
        assert("xchannelselector"@ != "markerunits"@) by { assert("xchannelselector"@.len() != "markerunits"@.len()); }
        assert("xchannelselector"@ != "markerwidth"@) by { assert("xchannelselector"@.len() != "markerwidth"@.len()); }
        assert("xchannelselector"@ != "maskcontentunits"@) by { assert("xchannelselector"@[0] != "maskcontentunits"@[0]); }
        assert("xchannelselector"@ != "maskunits"@) by { assert("xchannelselector"@.len() != "maskunits"@.len()); }
        assert("xchannelselector"@ != "numoctaves"@) by { assert("xchannelselector"@.len() != "numoctaves"@.len()); }
        assert("xchannelselector"@ != "pathlength"@) by { assert("xchannelselector"@.len() != "pathlength"@.len()); }
        assert("xchannelselector"@ != "patterncontentunits"@) by { assert("xchannelselector"@.len() != "patterncontentunits"@.len()); }
        assert("xchannelselector"@ != "patterntransform"@) by { assert("xchannelselector"@[0] != "patterntransform"@[0]); }
        assert("xchannelselector"@ != "patternunits"@) by { assert("xchannelselector"@.len() != "patternunits"@.len()); }
        assert("xchannelselector"@ != "pointsatx"@) by { assert("xchannelselector"@.len() != "pointsatx"@.len()); }
        assert("xchannelselector"@ != "pointsaty"@) by { assert("xchannelselector"@.len() != "pointsaty"@.len()); }
        assert("xchannelselector"@ != "pointsatz"@) by { assert("xchannelselector"@.len() != "pointsatz"@.len()); }
        assert("xchannelselector"@ != "preservealpha"@) by { assert("xchannelselector"@.len() != "preservealpha"@.len()); }
        assert("xchannelselector"@ != "preserveaspectratio"@) by { assert("xchannelselector"@.len() != "preserveaspectratio"@.len()); }
        assert("xchannelselector"@ != "primitiveunits"@) by { assert("xchannelselector"@.len() != "primitiveunits"@.len()); }
        assert("xchannelselector"@ != "refx"@) by { assert("xchannelselector"@.len() != "refx"@.len()); }
        assert("xchannelselector"@ != "refy"@) by { assert("xchannelselector"@.len() != "refy"@.len()); }
        assert("xchannelselector"@ != "repeatcount"@) by { assert("xchannelselector"@.len() != "repeatcount"@.len()); }
        assert("xchannelselector"@ != "repeatdur"@) by { assert("xchannelselector"@.len() != "repeatdur"@.len()); }
        assert("xchannelselector"@ != "requiredextensions"@) by { assert("xchannelselector"@.len() != "requiredextensions"@.len()); }
        assert("xchannelselector"@ != "requiredfeatures"@) by { assert("xchannelselector"@[0] != "requiredfeatures"@[0]); }
        assert("xchannelselector"@ != "specularconstant"@) by { assert("xchannelselector"@[0] != "specularconstant"@[0]); }
        assert("xchannelselector"@ != "specularexponent"@) by { assert("xchannelselector"@[0] != "specularexponent"@[0]); }
        assert("xchannelselector"@ != "spreadmethod"@) by { assert("xchannelselector"@.len() != "spreadmethod"@.len()); }
        assert("xchannelselector"@ != "startoffset"@) by { assert("xchannelselector"@.len() != "startoffset"@.len()); }
        assert("xchannelselector"@ != "stddeviation"@) by { assert("xchannelselector"@.len() != "stddeviation"@.len()); }
        assert("xchannelselector"@ != "stitchtiles"@) by { assert("xchannelselector"@.len() != "stitchtiles"@.len()); }
        assert("xchannelselector"@ != "surfacescale"@) by { assert("xchannelselector"@.len() != "surfacescale"@.len()); }
        assert("xchannelselector"@ != "systemlanguage"@) by { assert("xchannelselector"@.len() != "systemlanguage"@.len()); }
        assert("xchannelselector"@ != "tablevalues"@) by { assert("xchannelselector"@.len() != "tablevalues"@.len()); }
        assert("xchannelselector"@ != "targetx"@) by { assert("xchannelselector"@.len() != "targetx"@.len()); }
        assert("xchannelselector"@ != "targety"@) by { assert("xchannelselector"@.len() != "targety"@.len()); }
        assert("xchannelselector"@ != "textlength"@) by { assert("xchannelselector"@.len() != "textlength"@.len()); }
        assert("xchannelselector"@ != "viewbox"@) by { assert("xchannelselector"@.len() != "viewbox"@.len()); }
        assert("xchannelselector"@ != "viewtarget"@) by { assert("xchannelselector"@.len() != "viewtarget"@.len()); }
    }
    assert(lower("xChannelSelector"@) =~= "xchannelselector"@);
}

proof fn attr_case_56()
    ensures
        svg_attr_case(lower("yChannelSelector"@)) == "yChannelSelector"@,
{
    reveal_strlit("yChannelSelector");
    reveal_strlit("attributename");
    reveal_strlit("attributetype");
    reveal_strlit("basefrequency");
    reveal_strlit("baseprofile");
    reveal_strlit("calcmode");
    reveal_strlit("clippathunits");
    reveal_strlit("diffuseconstant");
    reveal_strlit("edgemode");
    reveal_strlit("filterunits");
    reveal_strlit("glyphref");
    reveal_strlit("gradienttransform");
    reveal_strlit("gradientunits");
    reveal_strlit("kernelmatrix");
    reveal_strlit("kernelunitlength");
    reveal_strlit("keypoints");
    reveal_strlit("keysplines");
    reveal_strlit("keytimes");
    reveal_strlit("lengthadjust");
    reveal_strlit("limitingconeangle");
    reveal_strlit("markerheight");
    reveal_strlit("markerunits");
    reveal_strlit("markerwidth");
    reveal_strlit("maskcontentunits");
    reveal_strlit("maskunits");
    reveal_strlit("numoctaves");
    reveal_strlit("pathlength");
    reveal_strlit("patterncontentunits");
    reveal_strlit("patterntransform");
    reveal_strlit("patternunits");
    reveal_strlit("pointsatx");
    reveal_strlit("pointsaty");
    reveal_strlit("pointsatz");
    reveal_strlit("preservealpha");
    reveal_strlit("preserveaspectratio");
    reveal_strlit("primitiveunits");
    reveal_strlit("refx");
    reveal_strlit("refy");
    reveal_strlit("repeatcount");
    reveal_strlit("repeatdur");
    reveal_strlit("requiredextensions");
    reveal_strlit("requiredfeatures");
    reveal_strlit("specularconstant");
    reveal_strlit("specularexponent");
    reveal_strlit("spreadmethod");
    reveal_strlit("startoffset");
    reveal_strlit("stddeviation");
    reveal_strlit("stitchtiles");
    reveal_strlit("surfacescale");
    reveal_strlit("systemlanguage");
    reveal_strlit("tablevalues");
    reveal_strlit("targetx");
    reveal_strlit("targety");
    reveal_strlit("textlength");
    reveal_strlit("viewbox");
    reveal_strlit("viewtarget");
    reveal_strlit("xchannelselector");
    reveal_strlit("ychannelselector");
    assert(svg_attr_case("ychannelselector"@) == "yChannelSelector"@) by {
        assert("ychannelselector"@ != "attributename"@) by { assert("ychannelselector"@.len() != "attributename"@.len()); }
        assert("ychannelselector"@ != "attributetype"@) by { assert("ychannelselector"@.len() != "attributetype"@.len()); }
        assert("ychannelselector"@ != "basefrequency"@) by { assert("ychannelselector"@.len() != "basefrequency"@.len()); }
        assert("ychannelselector"@ != "baseprofile"@) by { assert("ychannelselector"@.len() != "baseprofile"@.len()); }
        assert("ychannelselector"@ != "calcmode"@) by { assert("ychannelselector"@.len() != "calcmode"@.len()); }
        assert("ychannelselector"@ != "clippathunits"@) by { assert("ychannelselector"@.len() != "clippathunits"@.len()); }
        assert("ychannelselector"@ != "diffuseconstant"@) by { assert("ychannelselector"@.len() != "diffuseconstant"@.len()); }
        assert("ychannelselector"@ != "edgemode"@) by { assert("ychannelselector"@.len() != "edgemode"@.len()); }
        assert("ychannelselector"@ != "filterunits"@) by { assert("ychannelselector"@.len() != "filterunits"@.len()); }
        assert("ychannelselector"@ != "glyphref"@) by { assert("ychannelselector"@.len() != "glyphref"@.len()); }
        assert("ychannelselector"@ != "gradienttransform"@) by { assert("ychannelselector"@.len() != "gradienttransform"@.len()); }
        assert("ychannelselector"@ != "gradientunits"@) by { assert("ychannelselector"@.len() != "gradientunits"@.len()); }
        assert("ychannelselector"@ != "kernelmatrix"@) by { assert("ychannelselector"@.len() != "kernelmatrix"@.len()); }
        assert("ychannelselector"@ != "kernelunitlength"@) by { assert("ychannelselector"@[0] != "kernelunitlength"@[0]); }
        assert("ychannelselector"@ != "keypoints"@) by { assert("ychannelselector"@.len() != "keypoints"@.len()); }
        assert("ychannelselector"@ != "keysplines"@) by { assert("ychannelselector"@.len() != "keysplines"@.len()); }
        assert("ychannelselector"@ != "keytimes"@) by { assert("ychannelselector"@.len() != "keytimes"@.len()); }
        assert("ychannelselector"@ != "lengthadjust"@) by { assert("ychannelselector"@.len() != "lengthadjust"@.len()); }
        assert("ychannelselector"@ != "limitingconeangle"@) by { assert("ychannelselector"@.len() != "limitingconeangle"@.len()); }
        assert("ychannelselector"@ != "markerheight"@) by { assert("ychannelselector"@.len() != "markerheight"@.len()); }
        assert("ychannelselector"@ != "markerunits"@) by { assert("ychannelselector"@.len() != "markerunits"@.len()); }
        assert("ychannelselector"@ != "markerwidth"@) by { assert("ychannelselector"@.len() != "markerwidth"@.len()); }
        assert("ychannelselector"@ != "maskcontentunits"@) by { assert("ychannelselector"@[0] != "maskcontentunits"@[0]); }
        assert("ychannelselector"@ != "maskunits"@) by { assert("ychannelselector"@.len() != "maskunits"@.len()); }
        assert("ychannelselector"@ != "numoctaves"@) by { assert("ychannelselector"@.len() != "numoctaves"@.len()); }
        assert("ychannelselector"@ != "pathlength"@) by { assert("ychannelselector"@.len() != "pathlength"@.len()); }
        assert("ychannelselector"@ != "patterncontentunits"@) by { assert("ychannelselector"@.len() != "patterncontentunits"@.len()); }
        assert("ychannelselector"@ != "patterntransform"@) by { assert("ychannelselector"@[0] != "patterntransform"@[0]); }
        assert("ychannelselector"@ != "patternunits"@) by { assert("ychannelselector"@.len() != "patternunits"@.len()); }
        assert("ychannelselector"@ != "pointsatx"@) by { assert("ychannelselector"@.len() != "pointsatx"@.len()); }
        assert("ychannelselector"@ != "pointsaty"@) by { assert("ychannelselector"@.len() != "pointsaty"@.len()); }
        assert("ychannelselector"@ != "pointsatz"@) by { assert("ychannelselector"@.len() != "pointsatz"@.len()); }
        assert("ychannelselector"@ != "preservealpha"@) by { assert("ychannelselector"@.len() != "preservealpha"@.len()); }
        assert("ychannelselector"@ != "preserveaspectratio"@) by { assert("ychannelselector"@.len() != "preserveaspectratio"@.len()); }
        assert("ychannelselector"@ != "primitiveunits"@) by { assert("ychannelselector"@.len() != "primitiveunits"@.len()); }
        assert("ychannelselector"@ != "refx"@) by { assert("ychannelselector"@.len() != "refx"@.len()); }
        assert("ychannelselector"@ != "refy"@) by { assert("ychannelselector"@.len() != "refy"@.len()); }
        assert("ychannelselector"@ != "repeatcount"@) by { assert("ychannelselector"@.len() != "repeatcount"@.len()); }
        assert("ychannelselector"@ != "repeatdur"@) by { assert("ychannelselector"@.len() != "repeatdur"@.len()); }
        assert("ychannelselector"@ != "requiredextensions"@) by { assert("ychannelselector"@.len() != "requiredextensions"@.len()); }
        assert("ychannelselector"@ != "requiredfeatures"@) by { assert("ychannelselector"@[0] != "requiredfeatures"@[0]); }
        assert("ychannelselector"@ != "specularconstant"@) by { assert("ychannelselector"@[0] != "specularconstant"@[0]); }
        assert("ychannelselector"@ != "specularexponent"@) by { assert("ychannelselector"@[0] != "specularexponent"@[0]); }
        assert("ychannelselector"@ != "spreadmethod"@) by { assert("ychannelselector"@.len() != "spreadmethod"@.len()); }
        assert("ychannelselector"@ != "startoffset"@) by { assert("ychannelselector"@.len() != "startoffset"@.len()); }
        assert("ychannelselector"@ != "stddeviation"@) by { assert("ychannelselector"@.len() != "stddeviation"@.len()); }
        assert("ychannelselector"@ != "stitchtiles"@) by { assert("ychannelselector"@.len() != "stitchtiles"@.len()); }
        assert("ychannelselector"@ != "surfacescale"@) by { assert("ychannelselector"@.len() != "surfacescale"@.len()); }
        assert("ychannelselector"@ != "systemlanguage"@) by { assert("ychannelselector"@.len() != "systemlanguage"@.len()); }
        assert("ychannelselector"@ != "tablevalues"@) by { assert("ychannelselector"@.len() != "tablevalues"@.len()); }
        assert("ychannelselector"@ != "targetx"@) by { assert("ychannelselector"@.len() != "targetx"@.len()); }
        assert("ychannelselector"@ != "targety"@) by { assert("ychannelselector"@.len() != "targety"@.len()); }
        assert("ychannelselector"@ != "textlength"@) by { assert("ychannelselector"@.len() != "textlength"@.len()); }
        assert("ychannelselector"@ != "viewbox"@) by { assert("ychannelselector"@.len() != "viewbox"@.len()); }
        assert("ychannelselector"@ != "viewtarget"@) by { assert("ychannelselector"@.len() != "viewtarget"@.len()); }
        assert("ychannelselector"@ != "xchannelselector"@) by { assert("ychannelselector"@[0] != "xchannelselector"@[0]); }
    }
    assert(lower("yChannelSelector"@) =~= "ychannelselector"@);
}

proof fn attr_case_57()
    ensures
        svg_attr_case(lower("zoomAndPan"@)) == "zoomAndPan"@,
{
    reveal_strlit("zoomAndPan");
    reveal_strlit("attributename");
    reveal_strlit("attributetype");
    reveal_strlit("basefrequency");
    reveal_strlit("baseprofile");
    reveal_strlit("calcmode");
    reveal_strlit("clippathunits");
    reveal_strlit("diffuseconstant");
    reveal_strlit("edgemode");
    reveal_strlit("filterunits");
    reveal_strlit("glyphref");
    reveal_strlit("gradienttransform");
    reveal_strlit("gradientunits");
    reveal_strlit("kernelmatrix");
    reveal_strlit("kernelunitlength");
    reveal_strlit("keypoints");
    reveal_strlit("keysplines");
    reveal_strlit("keytimes");
    reveal_strlit("lengthadjust");
    reveal_strlit("limitingconeangle");
    reveal_strlit("markerheight");
    reveal_strlit("markerunits");
    reveal_strlit("markerwidth");
    reveal_strlit("maskcontentunits");
    reveal_strlit("maskunits");
    reveal_strlit("numoctaves");
    reveal_strlit("pathlength");
    reveal_strlit("patterncontentunits");
    reveal_strlit("patterntransform");
    reveal_strlit("patternunits");
    reveal_strlit("pointsatx");
    reveal_strlit("pointsaty");
    reveal_strlit("pointsatz");
    reveal_strlit("preservealpha");
    reveal_strlit("preserveaspectratio");
    reveal_strlit("primitiveunits");
    reveal_strlit("refx");
    reveal_strlit("refy");
    reveal_strlit("repeatcount");
    reveal_strlit("repeatdur");
    reveal_strlit("requiredextensions");
    reveal_strlit("requiredfeatures");
    reveal_strlit("specularconstant");
    reveal_strlit("specularexponent");
    reveal_strlit("spreadmethod");
    reveal_strlit("startoffset");
    reveal_strlit("stddeviation");
    reveal_strlit("stitchtiles");
    reveal_strlit("surfacescale");
    reveal_strlit("systemlanguage");
    reveal_strlit("tablevalues");
    reveal_strlit("targetx");
    reveal_strlit("targety");
    reveal_strlit("textlength");
    reveal_strlit("viewbox");
    reveal_strlit("viewtarget");
    reveal_strlit("xchannelselector");
    reveal_strlit("ychannelselector");
    reveal_strlit("zoomandpan");
    assert(svg_attr_case("zoomandpan"@) == "zoomAndPan"@) by {
        assert("zoomandpan"@ != "attributename"@) by { assert("zoomandpan"@.len() != "attributename"@.len()); }
        assert("zoomandpan"@ != "attributetype"@) by { assert("zoomandpan"@.len() != "attributetype"@.len()); }
        assert("zoomandpan"@ != "basefrequency"@) by { assert("zoomandpan"@.len() != "basefrequency"@.len()); }
        assert("zoomandpan"@ != "baseprofile"@) by { assert("zoomandpan"@.len() != "baseprofile"@.len()); }
        assert("zoomandpan"@ != "calcmode"@) by { assert("zoomandpan"@.len() != "calcmode"@.len()); }
        assert("zoomandpan"@ != "clippathunits"@) by { assert("zoomandpan"@.len() != "clippathunits"@.len()); }
        assert("zoomandpan"@ != "diffuseconstant"@) by { assert("zoomandpan"@.len() != "diffuseconstant"@.len()); }
        assert("zoomandpan"@ != "edgemode"@) by { assert("zoomandpan"@.len() != "edgemode"@.len()); }
        assert("zoomandpan"@ != "filterunits"@) by { assert("zoomandpan"@.len() != "filterunits"@.len()); }
        assert("zoomandpan"@ != "glyphref"@) by { assert("zoomandpan"@.len() != "glyphref"@.len()); }
        assert("zoomandpan"@ != "gradienttransform"@) by { assert("zoomandpan"@.len() != "gradienttransform"@.len()); }
        assert("zoomandpan"@ != "gradientunits"@) by { assert("zoomandpan"@.len() != "gradientunits"@.len()); }
        assert("zoomandpan"@ != "kernelmatrix"@) by { assert("zoomandpan"@.len() != "kernelmatrix"@.len()); }
        assert("zoomandpan"@ != "kernelunitlength"@) by { assert("zoomandpan"@.len() != "kernelunitlength"@.len()); }
        assert("zoomandpan"@ != "keypoints"@) by { assert("zoomandpan"@.len() != "keypoints"@.len()); }
        assert("zoomandpan"@ != "keysplines"@) by { assert("zoomandpan"@[0] != "keysplines"@[0]); }
        assert("zoomandpan"@ != "keytimes"@) by { assert("zoomandpan"@.len() != "keytimes"@.len()); }
        assert("zoomandpan"@ != "lengthadjust"@) by { assert("zoomandpan"@.len() != "lengthadjust"@.len()); }
        assert("zoomandpan"@ != "limitingconeangle"@) by { assert("zoomandpan"@.len() != "limitingconeangle"@.len()); }
        assert("zoomandpan"@ != "markerheight"@) by { assert("zoomandpan"@.len() != "markerheight"@.len()); }
        assert("zoomandpan"@ != "markerunits"@) by { assert("zoomandpan"@.len() != "markerunits"@.len()); }
        assert("zoomandpan"@ != "markerwidth"@) by { assert("zoomandpan"@.len() != "markerwidth"@.len()); }
        assert("zoomandpan"@ != "maskcontentunits"@) by { assert("zoomandpan"@.len() != "maskcontentunits"@.len()); }
        assert("zoomandpan"@ != "maskunits"@) by { assert("zoomandpan"@.len() != "maskunits"@.len()); }
        assert("zoomandpan"@ != "numoctaves"@) by { assert("zoomandpan"@[0] != "numoctaves"@[0]); }
        assert("zoomandpan"@ != "pathlength"@) by { assert("zoomandpan"@[0] != "pathlength"@[0]); }
        assert("zoomandpan"@ != "patterncontentunits"@) by { assert("zoomandpan"@.len() != "patterncontentunits"@.len()); }
        assert("zoomandpan"@ != "patterntransform"@) by { assert("zoomandpan"@.len() != "patterntransform"@.len()); }
        assert("zoomandpan"@ != "patternunits"@) by { assert("zoomandpan"@.len() != "patternunits"@.len()); }
        assert("zoomandpan"@ != "pointsatx"@) by { assert("zoomandpan"@.len() != "pointsatx"@.len()); }
        assert("zoomandpan"@ != "pointsaty"@) by { assert("zoomandpan"@.len() != "pointsaty"@.len()); }
        assert("zoomandpan"@ != "pointsatz"@) by { assert("zoomandpan"@.len() != "pointsatz"@.len()); }
        assert("zoomandpan"@ != "preservealpha"@) by { assert("zoomandpan"@.len() != "preservealpha"@.len()); }
        assert("zoomandpan"@ != "preserveaspectratio"@) by { assert("zoomandpan"@.len() != "preserveaspectratio"@.len()); }
        assert("zoomandpan"@ != "primitiveunits"@) by { assert("zoomandpan"@.len() != "primitiveunits"@.len()); }
        assert("zoomandpan"@ != "refx"@) by { assert("zoomandpan"@.len() != "refx"@.len()); }
        assert("zoomandpan"@ != "refy"@) by { assert("zoomandpan"@.len() != "refy"@.len()); }
        assert("zoomandpan"@ != "repeatcount"@) by { assert("zoomandpan"@.len() != "repeatcount"@.len()); }
        assert("zoomandpan"@ != "repeatdur"@) by { assert("zoomandpan"@.len() != "repeatdur"@.len()); }
        assert("zoomandpan"@ != "requiredextensions"@) by { assert("zoomandpan"@.len() != "requiredextensions"@.len()); }
        assert("zoomandpan"@ != "requiredfeatures"@) by { assert("zoomandpan"@.len() != "requiredfeatures"@.len()); }
        assert("zoomandpan"@ != "specularconstant"@) by { assert("zoomandpan"@.len() != "specularconstant"@.len()); }
        assert("zoomandpan"@ != "specularexponent"@) by { assert("zoomandpan"@.len() != "specularexponent"@.len()); }
        assert("zoomandpan"@ != "spreadmethod"@) by { assert("zoomandpan"@.len() != "spreadmethod"@.len()); }
        assert("zoomandpan"@ != "startoffset"@) by { assert("zoomandpan"@.len() != "startoffset"@.len()); }
        assert("zoomandpan"@ != "stddeviation"@) by { assert("zoomandpan"@.len() != "stddeviation"@.len()); }
        assert("zoomandpan"@ != "stitchtiles"@) by { assert("zoomandpan"@.len() != "stitchtiles"@.len()); }
        assert("zoomandpan"@ != "surfacescale"@) by { assert("zoomandpan"@.len() != "surfacescale"@.len()); }
        assert("zoomandpan"@ != "systemlanguage"@) by { assert("zoomandpan"@.len() != "systemlanguage"@.len()); }
        assert("zoomandpan"@ != "tablevalues"@) by { assert("zoomandpan"@.len() != "tablevalues"@.len()); }
        assert("zoomandpan"@ != "targetx"@) by { assert("zoomandpan"@.len() != "targetx"@.len()); }
        assert("zoomandpan"@ != "targety"@) by { assert("zoomandpan"@.len() != "targety"@.len()); }
        assert("zoomandpan"@ != "textlength"@) by { assert("zoomandpan"@[0] != "textlength"@[0]); }
        assert("zoomandpan"@ != "viewbox"@) by { assert("zoomandpan"@.len() != "viewbox"@.len()); }
        assert("zoomandpan"@ != "viewtarget"@) by { assert("zoomandpan"@[0] != "viewtarget"@[0]); }
        assert("zoomandpan"@ != "xchannelselector"@) by { assert("zoomandpan"@.len() != "xchannelselector"@.len()); }
        assert("zoomandpan"@ != "ychannelselector"@) by { assert("zoomandpan"@.len() != "ychannelselector"@.len()); }
    }
    assert(lower("zoomAndPan"@) =~= "zoomandpan"@);
}

/// Every SVG attribute name that the HTML standard writes with capitals comes out with
/// them from its lowercase form, as it is stored.
pub proof fn lemma_svg_attrs_keep_capitals()
    ensures
        forall|k: int| 0 <= k < svg_capital_attrs().len()
            ==> svg_attr_case(lower(#[trigger] svg_capital_attrs()[k])) == svg_capital_attrs()[k],
{
    assert forall|k: int| 0 <= k < svg_capital_attrs().len() implies svg_attr_case(lower(#[trigger] svg_capital_attrs()[k])) == svg_capital_attrs()[k] by {
        if k == 0 {
            attr_case_0();
        }
        if k == 1 {
            attr_case_1();
        }
        if k == 2 {
            attr_case_2();
        }
        if k == 3 {
            attr_case_3();
        }
        if k == 4 {
            attr_case_4();
        }
        if k == 5 {
            attr_case_5();
        }
        if k == 6 {
            attr_case_6();
        }
        if k == 7 {
            attr_case_7();
        }
        if k == 8 {
            attr_case_8();
        }
        if k == 9 {
            attr_case_9();
        }
        if k == 10 {
            attr_case_10();
        }
        if k == 11 {
            attr_case_11();
        }
        if k == 12 {
            attr_case_12();
        }
        if k == 13 {
            attr_case_13();
        }
        if k == 14 {
            attr_case_14();
        }
        if k == 15 {
            attr_case_15();
        }
        if k == 16 {
            attr_case_16();
        }
        if k == 17 {
            attr_case_17();
        }
        if k == 18 {
            attr_case_18();
        }
        if k == 19 {
            attr_case_19();
        }
        if k == 20 {
            attr_case_20();
        }
        if k == 21 {
            attr_case_21();
        }
        if k == 22 {
            attr_case_22();
        }
        if k == 23 {
            attr_case_23();
        }
        if k == 24 {
            attr_case_24();
        }
        if k == 25 {
            attr_case_25();
        }
        if k == 26 {
            attr_case_26();
        }
        if k == 27 {
            attr_case_27();
        }
        if k == 28 {
            attr_case_28();
        }
        if k == 29 {
            attr_case_29();
        }
        if k == 30 {
            attr_case_30();
        }
        if k == 31 {
            attr_case_31();
        }
        if k == 32 {
            attr_case_32();
        }
        if k == 33 {
            attr_case_33();
        }
        if k == 34 {
            attr_case_34();
        }
        if k == 35 {
            attr_case_35();
        }
        if k == 36 {
            attr_case_36();
        }
        if k == 37 {
            attr_case_37();
        }
        if k == 38 {
            attr_case_38();
        }
        if k == 39 {
            attr_case_39();
        }
        if k == 40 {
            attr_case_40();
        }
        if k == 41 {
            attr_case_41();
        }
        if k == 42 {
            attr_case_42();
        }
        if k == 43 {
            attr_case_43();
        }
        if k == 44 {
            attr_case_44();
        }
        if k == 45 {
            attr_case_45();
        }
        if k == 46 {
            attr_case_46();
        }
        if k == 47 {
            attr_case_47();
        }
        if k == 48 {
            attr_case_48();
        }
        if k == 49 {
            attr_case_49();
        }
        if k == 50 {
            attr_case_50();
        }
        if k == 51 {
            attr_case_51();
        }
        if k == 52 {
            attr_case_52();
        }
        if k == 53 {
            attr_case_53();
        }
        if k == 54 {
            attr_case_54();
        }
        if k == 55 {
            attr_case_55();
        }
        if k == 56 {
            attr_case_56();
        }
        if k == 57 {
            attr_case_57();
        }
    }
}

} // verus!
