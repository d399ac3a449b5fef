use taupe::picture::{pick_picture_index, PictureType};

#[test]
fn pick_picture_index_prefers_cover_front() {
    let types = vec![
        PictureType::Other,
        PictureType::CoverFront,
        PictureType::Other,
    ];
    assert_eq!(pick_picture_index(&types), Some(1));
}

#[test]
fn pick_picture_index_falls_back_to_first() {
    let types = vec![PictureType::Other, PictureType::Other];
    assert_eq!(pick_picture_index(&types), Some(0));
}

#[test]
fn pick_picture_index_none_for_empty() {
    let types: Vec<PictureType> = Vec::new();
    assert_eq!(pick_picture_index(&types), None);
}

#[test]
fn pick_picture_index_takes_the_first_of_several_front_covers() {
    let types = vec![
        PictureType::CoverBack,
        PictureType::Undefined(42),
        PictureType::CoverFront,
        PictureType::CoverFront,
    ];
    assert_eq!(pick_picture_index(&types), Some(2));
}

#[test]
fn pick_picture_index_front_cover_at_start() {
    let types = vec![PictureType::CoverFront, PictureType::Icon];
    assert_eq!(pick_picture_index(&types), Some(0));
}

#[test]
fn pick_picture_index_single_non_cover() {
    let types = vec![PictureType::Media];
    assert_eq!(pick_picture_index(&types), Some(0));
}
