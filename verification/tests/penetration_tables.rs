use wlrip::penetration::{
    surface_damage_modifier_tenths, surface_index_from_lowercase, surface_name_to_index,
    surface_penetration_modifier_tenths, weapon_base_damage, weapon_penetration_power_tenths,
    SURFACE_CARPET, SURFACE_CHAINLINK, SURFACE_CONCRETE, SURFACE_DEFAULT, SURFACE_DIRT,
    SURFACE_GLASS, SURFACE_GRATE, SURFACE_METAL, SURFACE_METALPANEL, SURFACE_METALVEHICLE,
    SURFACE_METALVENT, SURFACE_PLASTIC, SURFACE_ROCK, SURFACE_SAND, SURFACE_SOLIDMETAL,
    SURFACE_TILE, SURFACE_WOOD, SURFACE_WOOD_DENSE, SURFACE_WOOD_PANEL,
};

#[test]
fn lowercase_names_map_to_surfaces() {
    assert_eq!(surface_index_from_lowercase("concrete"), SURFACE_CONCRETE);
    assert_eq!(surface_index_from_lowercase("concrete_block"), SURFACE_CONCRETE);
    assert_eq!(surface_index_from_lowercase("asphalt"), SURFACE_CONCRETE);
    assert_eq!(surface_index_from_lowercase("porcelain"), SURFACE_CONCRETE);
    assert_eq!(surface_index_from_lowercase("solidmetal"), SURFACE_SOLIDMETAL);
    assert_eq!(surface_index_from_lowercase("metal_sand_barrel"), SURFACE_METALVEHICLE);
    assert_eq!(surface_index_from_lowercase("metalvehicle"), SURFACE_METALVEHICLE);
    assert_eq!(surface_index_from_lowercase("metal_vehiclesoundoverride"), SURFACE_METALVEHICLE);
    assert_eq!(surface_index_from_lowercase("metalvent"), SURFACE_METALVENT);
    assert_eq!(surface_index_from_lowercase("metalpanel"), SURFACE_METALPANEL);
    assert_eq!(surface_index_from_lowercase("metalgrate"), SURFACE_GRATE);
    assert_eq!(surface_index_from_lowercase("grate"), SURFACE_GRATE);
    assert_eq!(surface_index_from_lowercase("metal_box"), SURFACE_METAL);
    assert_eq!(surface_index_from_lowercase("wood_panel"), SURFACE_WOOD_PANEL);
    assert_eq!(surface_index_from_lowercase("wood_dense"), SURFACE_WOOD_DENSE);
    assert_eq!(surface_index_from_lowercase("wood_crate"), SURFACE_WOOD);
    assert_eq!(surface_index_from_lowercase("glass_window"), SURFACE_GLASS);
    assert_eq!(surface_index_from_lowercase("rock"), SURFACE_ROCK);
    assert_eq!(surface_index_from_lowercase("dirt"), SURFACE_DIRT);
    assert_eq!(surface_index_from_lowercase("mud"), SURFACE_DIRT);
    assert_eq!(surface_index_from_lowercase("sand"), SURFACE_SAND);
    assert_eq!(surface_index_from_lowercase("chainlink"), SURFACE_CHAINLINK);
    assert_eq!(surface_index_from_lowercase("tile"), SURFACE_TILE);
    assert_eq!(surface_index_from_lowercase("carpet"), SURFACE_CARPET);
    assert_eq!(surface_index_from_lowercase("plastic_barrel"), SURFACE_PLASTIC);
    assert_eq!(surface_index_from_lowercase("rubber"), SURFACE_PLASTIC);
    assert_eq!(surface_index_from_lowercase("rubbertire"), SURFACE_PLASTIC);
    assert_eq!(surface_index_from_lowercase("flesh"), SURFACE_DEFAULT);
    assert_eq!(surface_index_from_lowercase(""), SURFACE_DEFAULT);
}

#[test]
fn exact_names_are_not_prefixes() {
    // "mud" and "grate" match only as whole names
    assert_eq!(surface_index_from_lowercase("muddy"), SURFACE_DEFAULT);
    assert_eq!(surface_index_from_lowercase("grated"), SURFACE_DEFAULT);
    assert_eq!(surface_index_from_lowercase("solidmetal2"), SURFACE_DEFAULT);
    assert_eq!(surface_index_from_lowercase("wood_panels"), SURFACE_WOOD);
    assert_eq!(surface_index_from_lowercase("metalvents"), SURFACE_METAL);
}

#[test]
fn surface_names_ignore_case() {
    assert_eq!(surface_name_to_index("Concrete"), SURFACE_CONCRETE);
    assert_eq!(surface_name_to_index("METAL_Box"), SURFACE_METAL);
    assert_eq!(surface_name_to_index("SolidMetal"), SURFACE_SOLIDMETAL);
    assert_eq!(surface_name_to_index("Wood_Panel"), SURFACE_WOOD_PANEL);
    assert_eq!(surface_name_to_index("MUD"), SURFACE_DIRT);
    assert_eq!(surface_name_to_index("glass"), SURFACE_GLASS);
}

#[test]
fn surface_modifier_tables() {
    assert_eq!(surface_penetration_modifier_tenths(SURFACE_SOLIDMETAL), 1);
    assert_eq!(surface_penetration_modifier_tenths(SURFACE_CHAINLINK), 20);
    assert_eq!(surface_penetration_modifier_tenths(SURFACE_GLASS), 15);
    assert_eq!(surface_penetration_modifier_tenths(SURFACE_METALVENT), 12);
    assert_eq!(surface_penetration_modifier_tenths(SURFACE_DEFAULT), 5);
    assert_eq!(surface_penetration_modifier_tenths(200), 5);
    assert_eq!(surface_damage_modifier_tenths(SURFACE_SOLIDMETAL), 9);
    assert_eq!(surface_damage_modifier_tenths(SURFACE_GRATE), 1);
    assert_eq!(surface_damage_modifier_tenths(SURFACE_WOOD), 4);
    assert_eq!(surface_damage_modifier_tenths(SURFACE_TILE), 6);
    assert_eq!(surface_damage_modifier_tenths(SURFACE_DEFAULT), 5);
    assert_eq!(surface_damage_modifier_tenths(99), 5);
    for i in 0..=255u8 {
        assert!(surface_penetration_modifier_tenths(i) > 0);
        let d = surface_damage_modifier_tenths(i);
        assert!(d > 0 && d < 10);
    }
}

#[test]
fn weapon_tables() {
    assert_eq!(weapon_penetration_power_tenths("awp"), 25);
    assert_eq!(weapon_penetration_power_tenths("ssg08"), 25);
    assert_eq!(weapon_penetration_power_tenths("ak47"), 20);
    assert_eq!(weapon_penetration_power_tenths("m4a1_silencer_off"), 20);
    assert_eq!(weapon_penetration_power_tenths("deagle"), 20);
    assert_eq!(weapon_penetration_power_tenths("glock"), 10);
    assert_eq!(weapon_penetration_power_tenths("xm1014"), 10);
    assert_eq!(weapon_penetration_power_tenths("taser"), 0);
    assert_eq!(weapon_penetration_power_tenths("knife"), 10);
    assert_eq!(weapon_penetration_power_tenths("AWP"), 10);
    assert_eq!(weapon_base_damage("awp"), 115);
    assert_eq!(weapon_base_damage("scar20"), 80);
    assert_eq!(weapon_base_damage("ak47"), 36);
    assert_eq!(weapon_base_damage("m4a1_silencer"), 33);
    assert_eq!(weapon_base_damage("m4a1_silencer_off"), 30);
    assert_eq!(weapon_base_damage("revolver"), 86);
    assert_eq!(weapon_base_damage("fiveseven"), 33);
    assert_eq!(weapon_base_damage("xm1014"), 20);
    assert_eq!(weapon_base_damage("taser"), 30);
}
