use wind_material::engine::{
    setup_wind_affected, update_materials, MaterialAssets, MaterialBinding, MaterialHandle,
    MeshHandle, SceneObject, WindAffectedTypes, WindPlugin,
};
use wind_material::material::{
    StandardMaterial, WindAffectable, WindAffectedExtendedMaterial,
};
use wind_material::texture::{TextureHandle, WindTexture};
use wind_material::wind::{Wind, WindUniform};

fn scene_object(mesh: usize, material: usize, tagged: bool) -> SceneObject {
    SceneObject {
        mesh: MeshHandle(mesh),
        material: MaterialBinding::Base(MaterialHandle(material)),
        wind_affected: tagged,
        ready: false,
    }
}

fn base_store(n: usize) -> MaterialAssets<StandardMaterial> {
    let mut store = MaterialAssets::new();
    for i in 0..n {
        store.add(StandardMaterial {
            base_color: 0xFF000000 | i as u32,
        });
    }
    store
}

#[test]
fn sweep_promotes_each_eligible_object_exactly_once() {
    let materials = base_store(4);
    let mut extended: MaterialAssets<WindAffectedExtendedMaterial> = MaterialAssets::new();
    let mut types = WindAffectedTypes::default();
    let mut objects = vec![
        scene_object(0, 0, true),
        scene_object(1, 1, false),
        scene_object(2, 2, true),
        scene_object(3, 3, true),
    ];
    let texture = WindTexture(TextureHandle(0));
    let wind = Wind::default();

    setup_wind_affected(&mut objects, &materials, &mut extended, &mut types, &texture, &wind);

    assert_eq!(types.get().len(), 3);
    assert_eq!(extended.len(), 3);
    assert!(objects[0].ready);
    assert!(!objects[1].ready);
    assert!(objects[2].ready);
    assert!(objects[3].ready);
    assert_eq!(objects[0].material, MaterialBinding::Extended(MaterialHandle(0)));
    assert_eq!(objects[1].material, MaterialBinding::Base(MaterialHandle(1)));
    assert_eq!(objects[2].material, MaterialBinding::Extended(MaterialHandle(1)));
    assert_eq!(objects[3].material, MaterialBinding::Extended(MaterialHandle(2)));

    // each derived material carries a clone of its object's base material
    assert_eq!(extended.get(MaterialHandle(0)).base, StandardMaterial { base_color: 0xFF000000 });
    assert_eq!(extended.get(MaterialHandle(1)).base, StandardMaterial { base_color: 0xFF000002 });
    assert_eq!(extended.get(MaterialHandle(2)).base, StandardMaterial { base_color: 0xFF000003 });

    // registry records point at the promoted meshes and materials
    assert_eq!(types.values[0].mesh, MeshHandle(0));
    assert_eq!(types.values[1].mesh, MeshHandle(2));
    assert_eq!(types.values[2].mesh, MeshHandle(3));
    assert_eq!(types.values[2].material, MaterialHandle(2));

    // a second sweep with nothing newly tagged is a no-op
    let before = objects.clone();
    setup_wind_affected(&mut objects, &materials, &mut extended, &mut types, &texture, &wind);
    assert_eq!(types.get().len(), 3);
    assert_eq!(extended.len(), 3);
    assert_eq!(objects, before);
}

#[test]
fn sweep_with_no_eligible_objects_changes_nothing() {
    let materials = base_store(2);
    let mut extended: MaterialAssets<WindAffectedExtendedMaterial> = MaterialAssets::new();
    let mut types = WindAffectedTypes::default();
    let mut objects = vec![scene_object(0, 0, false), scene_object(1, 1, false)];
    let texture = WindTexture(TextureHandle(0));
    let wind = Wind::default();

    setup_wind_affected(&mut objects, &materials, &mut extended, &mut types, &texture, &wind);
    assert_eq!(types.get().len(), 0);
    setup_wind_affected(&mut objects, &materials, &mut extended, &mut types, &texture, &wind);
    assert_eq!(types.get().len(), 0);
    assert_eq!(extended.len(), 0);
}

fn broadcast_reaches_every_material(count: usize) {
    let materials = base_store(1);
    let mut extended: MaterialAssets<WindAffectedExtendedMaterial> = MaterialAssets::new();
    let mut types = WindAffectedTypes::default();
    let mut objects: Vec<SceneObject> =
        (0..count).map(|i| scene_object(i, 0, true)).collect();
    let texture = WindTexture(TextureHandle(0));
    let wind = Wind::default();
    setup_wind_affected(&mut objects, &materials, &mut extended, &mut types, &texture, &wind);
    assert_eq!(extended.len(), count);

    let mut v = Wind::default();
    v.strength = 0.9f32.to_bits();
    v.enable_billboarding = true;
    update_materials(&mut extended, &v);

    let expected = WindUniform::encode(&v);
    for m in &extended.vec {
        assert_eq!(m.extension.wind, v);
        assert_eq!(m.extension.uniform(), expected);
    }
}

#[test]
fn broadcast_update_is_consistent_for_zero_one_and_many() {
    broadcast_reaches_every_material(0);
    broadcast_reaches_every_material(1);
    broadcast_reaches_every_material(1000);
}

#[test]
fn end_to_end_frame_sequence() {
    // baseline parameters: strength 0.5, direction the normalization of (1.0, 0.5)
    let wind = Wind::default();
    assert_eq!(wind.strength, 0.5f32.to_bits());
    assert!((f32::from_bits(wind.direction_x) - 0.894).abs() < 1e-3);
    assert!((f32::from_bits(wind.direction_y) - 0.447).abs() < 1e-3);

    let materials = base_store(3);
    let mut extended: MaterialAssets<WindAffectedExtendedMaterial> = MaterialAssets::new();
    let mut types = WindAffectedTypes::default();
    let mut objects = vec![
        scene_object(0, 0, true),
        scene_object(1, 1, true),
        scene_object(2, 2, true),
    ];
    let texture = WindTexture(TextureHandle(7));
    let plugin: WindPlugin<StandardMaterial, WindAffectedExtendedMaterial> = WindPlugin::default();

    // frame one: promotion sweep, then broadcast
    plugin.run_frame(&mut objects, &materials, &mut extended, &mut types, &texture, &wind);
    assert_eq!(types.get().len(), 3);
    assert_eq!(extended.len(), 3);
    for m in &extended.vec {
        assert_eq!(m.extension.uniform().strength, 0.5f32.to_bits());
        assert_eq!(m.extension.noise_texture, TextureHandle(7));
    }

    // the host raises the strength; frame two has nothing newly eligible
    let mut wind = wind;
    wind.strength = 0.9f32.to_bits();
    plugin.run_frame(&mut objects, &materials, &mut extended, &mut types, &texture, &wind);
    assert_eq!(types.get().len(), 3);
    assert_eq!(extended.len(), 3);
    for m in &extended.vec {
        assert_eq!(m.extension.uniform().strength, 0.9f32.to_bits());
    }
}

#[test]
fn promotion_seeds_the_current_wind_snapshot() {
    let materials = base_store(1);
    let mut extended: MaterialAssets<WindAffectedExtendedMaterial> = MaterialAssets::new();
    let mut types = WindAffectedTypes::default();
    let mut objects = vec![scene_object(0, 0, true)];
    let texture = WindTexture(TextureHandle(0));
    let mut wind = Wind::default();
    wind.twist_strength = 0.75f32.to_bits();

    setup_wind_affected(&mut objects, &materials, &mut extended, &mut types, &texture, &wind);
    assert_eq!(extended.get(MaterialHandle(0)).extension.wind, wind);
    assert_eq!(types.values[0].wind, wind);
}

#[test]
fn derived_material_bundles_its_parts() {
    let base = StandardMaterial { base_color: 0x11223344 };
    let wind = Wind::default();
    let m = WindAffectedExtendedMaterial::create_material(&base, &wind, TextureHandle(3));
    assert_eq!(m.base, base);
    assert_eq!(m.extension.wind, wind);
    assert_eq!(m.extension.noise_texture, TextureHandle(3));

    let mut m = m;
    let mut v = wind;
    v.bop_speed = 55.0f32.to_bits();
    m.update_material(&v);
    assert_eq!(m.extension.wind, v);
    assert_eq!(m.base, base);
    assert_eq!(m.extension.noise_texture, TextureHandle(3));
}

#[test]
fn tagging_marks_an_object_eligible() {
    let mut o = SceneObject {
        mesh: MeshHandle(0),
        material: MaterialBinding::Base(MaterialHandle(0)),
        wind_affected: false,
        ready: false,
    };
    assert!(!o.is_eligible());
    o.tag_wind_affected();
    assert!(o.is_eligible());
    o.mark_ready();
    assert!(!o.is_eligible());
    assert!(o.wind_affected && o.ready);
}

#[test]
fn spawned_instances_bypass_the_sweep() {
    let materials = base_store(1);
    let mut extended: MaterialAssets<WindAffectedExtendedMaterial> = MaterialAssets::new();
    let mut types = WindAffectedTypes::default();
    let mut objects = vec![scene_object(4, 0, true)];
    let texture = WindTexture(TextureHandle(0));
    let wind = Wind::default();
    setup_wind_affected(&mut objects, &materials, &mut extended, &mut types, &texture, &wind);
    assert_eq!(types.get().len(), 1);

    // spawn two more instances from the recorded prototype
    let spawned = wind_material::engine::spawn_from_prototype(&types.values[0]);
    objects.push(spawned);
    objects.push(wind_material::engine::spawn_from_prototype(&types.values[0]));
    assert_eq!(spawned.mesh, MeshHandle(4));
    assert_eq!(spawned.material, MaterialBinding::Extended(MaterialHandle(0)));
    assert!(spawned.ready);

    // the sweep never touches them: no new derived materials or records
    setup_wind_affected(&mut objects, &materials, &mut extended, &mut types, &texture, &wind);
    assert_eq!(types.get().len(), 1);
    assert_eq!(extended.len(), 1);
}
