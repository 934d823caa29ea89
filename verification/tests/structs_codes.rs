use studio_loader::structs::{DataModelFeatures, GraphicsMode, QualityLevel};

#[test]
fn engine_codes_match_the_engine_numbering() {
    assert_eq!(GraphicsMode::Direct3D11.code(), 2);
    assert_eq!(GraphicsMode::NoGraphics.code(), 7);
    assert_eq!(QualityLevel::QualityLevelCount.code(), 0x16);
    assert_eq!(DataModelFeatures::ConsideredOriginal.code(), 0x40);
}
