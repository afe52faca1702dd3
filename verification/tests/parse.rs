use flexvg::types::{parse_dimension, parse_percent, parse_point, DimensionError, FlexDimension};

#[test]
fn percent_string_becomes_fraction() {
    assert_eq!(parse_percent("50%"), Ok((0.5f32).to_bits()));
}

#[test]
fn percent_without_suffix_is_rejected() {
    assert_eq!(parse_percent("50"), Err(DimensionError::ExpectingPercent));
}

#[test]
fn percent_without_number_is_rejected() {
    assert_eq!(parse_percent("abc%"), Err(DimensionError::InvalidPercent));
}

#[test]
fn point_string_keeps_raw_value() {
    assert_eq!(parse_point("12pt"), Ok((12.0f32).to_bits()));
}

#[test]
fn point_without_suffix_is_rejected() {
    assert_eq!(parse_point("12"), Err(DimensionError::ExpectingPoint));
}

#[test]
fn dimension_auto() {
    assert_eq!(parse_dimension("auto"), Ok(FlexDimension::Auto));
}

#[test]
fn dimension_percent() {
    assert_eq!(parse_dimension("50%"), Ok(FlexDimension::Percent((0.5f32).to_bits())));
}

#[test]
fn dimension_points() {
    assert_eq!(parse_dimension("12pt"), Ok(FlexDimension::Points((12.0f32).to_bits())));
}

#[test]
fn dimension_unknown_suffix_is_rejected() {
    assert_eq!(parse_dimension("12px"), Err(DimensionError::UnknownUnit));
}

#[test]
fn point_without_number_is_rejected() {
    assert_eq!(parse_point("abcpt"), Err(DimensionError::InvalidPoint));
}

#[test]
fn dimension_fractional_percent() {
    assert_eq!(parse_dimension("12.5%"), Ok(FlexDimension::Percent((0.125f32).to_bits())));
}

#[test]
fn dimension_fractional_points() {
    assert_eq!(parse_dimension("0.75pt"), Ok(FlexDimension::Points((0.75f32).to_bits())));
}
