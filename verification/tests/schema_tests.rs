use render_core::schema::{
    blit_screen_format, color_element, light_element, normal_element, overlay_element,
    padding_element, position_color_format, position_color_light_format,
    position_color_texture_format, position_color_texture_light_format,
    position_color_texture_light_normal_format, position_color_texture_overlay_light_normal_format,
    position_format, position_texture_color_format, position_texture_color_light_format,
    position_texture_color_normal_format, position_texture_format,
    position_texture_light_color_format, texture_element, DataType, ElementKind, VertexFormat,
    VertexFormatElement,
};

fn check_prefix_sums(f: &VertexFormat) {
    assert_eq!(f.offsets.len(), f.elements.len());
    assert_eq!(f.attr_names.len(), f.elements.len());
    let mut sum: usize = 0;
    for (k, e) in f.elements.iter().enumerate() {
        assert_eq!(f.offsets[k], sum, "offset {} of {:?}", k, f.id);
        sum += e.byte_length();
    }
    assert_eq!(f.size, sum, "stride of {:?}", f.id);
}

#[test]
fn catalogue_strides_and_offsets_are_prefix_sums() {
    for f in [
        blit_screen_format(),
        position_color_texture_light_normal_format(),
        position_color_texture_overlay_light_normal_format(),
        position_texture_color_light_format(),
        position_format(),
        position_texture_format(),
        position_texture_color_format(),
        position_color_texture_format(),
        position_color_format(),
        position_color_light_format(),
        position_color_texture_light_format(),
        position_texture_light_color_format(),
        position_texture_color_normal_format(),
    ] {
        check_prefix_sums(&f);
    }
}

#[test]
fn catalogue_exact_strides() {
    assert_eq!(blit_screen_format().size, 24);
    assert_eq!(position_color_texture_light_normal_format().size, 32);
    assert_eq!(position_color_texture_overlay_light_normal_format().size, 36);
    assert_eq!(position_texture_color_light_format().size, 28);
    assert_eq!(position_format().size, 12);
    assert_eq!(position_texture_format().size, 20);
    assert_eq!(position_texture_color_format().size, 24);
    assert_eq!(position_color_texture_format().size, 24);
    assert_eq!(position_color_format().size, 16);
    assert_eq!(position_color_light_format().size, 20);
    assert_eq!(position_color_texture_light_format().size, 28);
    assert_eq!(position_texture_light_color_format().size, 28);
    assert_eq!(position_texture_color_normal_format().size, 28);
}

#[test]
fn catalogue_exact_offsets() {
    assert_eq!(blit_screen_format().offsets, vec![0, 12, 20]);
    assert_eq!(position_color_texture_light_normal_format().offsets, vec![0, 12, 16, 24, 28, 31]);
    assert_eq!(
        position_color_texture_overlay_light_normal_format().offsets,
        vec![0, 12, 16, 24, 28, 32, 35]
    );
    assert_eq!(position_color_texture_light_format().offsets, vec![0, 12, 16, 24]);
    assert_eq!(position_texture_color_normal_format().offsets, vec![0, 12, 20, 24, 27]);
}

#[test]
fn element_byte_lengths() {
    assert_eq!(color_element().byte_length(), 4);
    assert_eq!(texture_element().byte_length(), 8);
    assert_eq!(overlay_element().byte_length(), 4);
    assert_eq!(light_element().byte_length(), 4);
    assert_eq!(normal_element().byte_length(), 3);
    assert_eq!(padding_element().byte_length(), 1);
}

#[test]
fn data_type_lengths_and_names() {
    assert_eq!(DataType::Float.length(), 4);
    assert_eq!(DataType::UByte.length(), 1);
    assert_eq!(DataType::Byte.length(), 1);
    assert_eq!(DataType::UShort.length(), 2);
    assert_eq!(DataType::Short.length(), 2);
    assert_eq!(DataType::UInt.length(), 4);
    assert_eq!(DataType::Int.length(), 4);
    assert_eq!(DataType::Float.name(), "float");
    assert_eq!(DataType::UByte.name(), "unsigned byte");
}

#[test]
fn padding_is_never_bound() {
    assert!(padding_element().binding().is_none());
    let b = normal_element().binding().unwrap();
    assert!(b.normalized);
    assert!(!b.integer_pointer);
    let t = texture_element().binding().unwrap();
    assert!(!t.normalized);
    assert!(!t.integer_pointer);
    let o = overlay_element().binding().unwrap();
    assert!(o.integer_pointer);
}

#[test]
fn texture_units_of_elements() {
    assert_eq!(overlay_element().texture_index, 1);
    assert_eq!(light_element().texture_index, 2);
    assert_eq!(color_element().texture_index, 0);
    assert!(matches!(color_element().kind, ElementKind::Color));
    let e = VertexFormatElement::new(0, DataType::Float, ElementKind::Position, 3);
    assert_eq!(e.byte_length(), 12);
}
