use quad_render::mesh::{index_buffer_bytes, index_count, quad_indices, INDEX_COUNT, VERTEX_COUNT};
use quad_render::uniform::{uniform_for_time, UNIFORM_WORDS};

#[test]
fn quad_has_two_triangles() {
    let idx = quad_indices();
    assert_eq!(idx, vec![3, 2, 1, 3, 0, 1]);
    assert_eq!(index_count(&idx), INDEX_COUNT);
    assert_eq!(INDEX_COUNT, 6);
}

#[test]
fn quad_indices_name_existing_vertices() {
    for i in quad_indices() {
        assert!((i as usize) < VERTEX_COUNT);
    }
}

#[test]
fn index_bytes_hold_each_index() {
    let idx = quad_indices();
    let bytes = index_buffer_bytes(&idx);
    assert_eq!(bytes.len(), 12);
    for k in 0..idx.len() {
        assert_eq!(u16::from_ne_bytes([bytes[2 * k], bytes[2 * k + 1]]), idx[k]);
    }
}

#[test]
fn index_bytes_of_empty_list() {
    assert!(index_buffer_bytes(&vec![]).is_empty());
}

#[test]
fn uniform_color_is_fixed() {
    let t = 1.25f32;
    let u = uniform_for_time(t.to_bits());
    let color: Vec<f32> = u.color.iter().map(|b| f32::from_bits(*b)).collect();
    assert_eq!(color, vec![0.5, 1.0, 0.4, 1.0]);
    assert_eq!(f32::from_bits(u.time), 1.25);
}

#[test]
fn uniform_words_pad_to_32_bytes() {
    let u = uniform_for_time(2.0f32.to_bits());
    let w = u.to_words();
    assert_eq!(w.len(), UNIFORM_WORDS);
    assert_eq!(w.len() * 4, 32);
    assert_eq!(f32::from_bits(w[0]), 0.5);
    assert_eq!(f32::from_bits(w[2]), 0.4);
    assert_eq!(f32::from_bits(w[4]), 2.0);
    assert_eq!(&w[5..], &[0, 0, 0]);
}

#[test]
fn uniform_color_same_for_every_frame() {
    for k in 0..10u32 {
        let u = uniform_for_time((k as f32 * 0.016).to_bits());
        assert_eq!(f32::from_bits(u.color[0]), 0.5);
        assert_eq!(f32::from_bits(u.color[1]), 1.0);
        assert_eq!(f32::from_bits(u.color[2]), 0.4);
        assert_eq!(f32::from_bits(u.color[3]), 1.0);
    }
}
