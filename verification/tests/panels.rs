use render_engine::lights::{active_point_lights, can_add_point_light, LightAnimation};
use render_engine::model_panel::{add_loaded_model, ModelManager, Overlay};
use render_engine::scene::Scene;
use render_engine::particle::{ParticleBlendMode, ParticleRenderType};

#[test]
fn model_manager_register_and_find() {
    let mut m: ModelManager<[i32; 3], String> = ModelManager::new();
    assert_eq!(m.overlay(), Overlay::Welcome);
    m.register_model(3, "duck.glb", 2, [0, 0, 0]);
    m.register_model(5, "fox.glb", 1, [1, 1, 1]);
    assert_eq!(m.models.len(), 2);
    assert_eq!(m.models[0].filename, "duck.glb");
    assert_eq!(m.models[0].mesh_count, 2);
    assert_eq!(m.find_model(5), Some(1));
    assert_eq!(m.find_model(4), None);
    assert_eq!(m.overlay(), Overlay::Hidden);
    assert_eq!(m.selected_model(), None);
    m.select(3);
    assert_eq!(m.selected_model(), Some(0));
    assert!(m.is_selected(0));
    assert!(!m.is_selected(1));
    m.deselect();
    assert_eq!(m.selected_group_id, None);
}

#[test]
fn model_manager_removal_is_queued() {
    let mut m: ModelManager<u8, String> = ModelManager::new();
    m.register_model(1, "a", 1, 0);
    m.register_model(2, "b", 1, 0);
    m.register_model(3, "c", 1, 0);
    m.select(2);
    m.remove_model(1);
    m.remove_model(0);
    assert_eq!(m.models.len(), 1);
    assert_eq!(m.models[0].group_id, 3);
    // The selection is kept even though its model left the list.
    assert_eq!(m.selected_group_id, Some(2));
    assert_eq!(m.selected_model(), None);
    assert_eq!(m.take_pending_removals(), vec![2, 1]);
    assert!(m.take_pending_removals().is_empty());
}

#[test]
fn model_manager_load_flow() {
    let mut m: ModelManager<u8, &'static str> = ModelManager::new();
    assert!(m.can_start_load());
    m.begin_load("/tmp/duck.glb", "duck.glb".to_string());
    assert!(m.is_loading);
    assert!(!m.can_start_load());
    assert_eq!(m.loading_filename, "duck.glb");
    assert_eq!(m.overlay(), Overlay::Loading);
    assert_eq!(m.take_pending_load(), Some("/tmp/duck.glb"));
    assert_eq!(m.take_pending_load(), None);
    m.finish_load();
    assert!(!m.is_loading);
    assert_eq!(m.overlay(), Overlay::Welcome);
}

#[test]
fn selection_and_registration_leave_the_load_alone() {
    let mut m: ModelManager<u8, &'static str> = ModelManager::new();
    m.begin_load("/tmp/fox.glb", "fox.glb".to_string());
    m.register_model(7, "duck.glb", 1, 0);
    m.select(7);
    m.deselect();
    assert!(m.is_loading);
    assert_eq!(m.loading_filename, "fox.glb");
    assert_eq!(m.pending_load, Some("/tmp/fox.glb"));
    assert_eq!(m.overlay(), Overlay::Loading);
}

#[test]
fn first_four_enabled_lights_get_slots() {
    assert_eq!(active_point_lights(&vec![true, false, true, true, true, true]), vec![0, 2, 3, 4]);
    assert_eq!(active_point_lights(&vec![false, true]), vec![1]);
    assert!(active_point_lights(&vec![false, false]).is_empty());
    assert!(active_point_lights(&Vec::new()).is_empty());
}

#[test]
fn light_animations() {
    assert_eq!(LightAnimation::for_light(0, true, true), Some(LightAnimation::CyanOrbit));
    assert_eq!(LightAnimation::for_light(1, true, true), Some(LightAnimation::MagentaOrbit));
    assert_eq!(LightAnimation::for_light(2, true, true), Some(LightAnimation::GoldPulse));
    assert_eq!(LightAnimation::for_light(3, true, true), None);
    assert_eq!(LightAnimation::for_light(0, false, true), None);
    assert_eq!(LightAnimation::for_light(1, true, false), None);
}

#[test]
fn point_light_limit() {
    assert!(can_add_point_light(3));
    assert!(!can_add_point_light(4));
}

#[test]
fn particle_shader_indices() {
    assert_eq!(ParticleRenderType::GlowCircle.shader_index(), 0);
    assert_eq!(ParticleRenderType::Spark.shader_index(), 1);
    assert_eq!(ParticleRenderType::Flame.shader_index(), 2);
    assert_eq!(ParticleRenderType::Smoke.shader_index(), 3);
    assert_eq!(ParticleRenderType::Star.shader_index(), 4);
    assert_ne!(ParticleBlendMode::Additive, ParticleBlendMode::Alpha);
}

#[test]
fn particle_style_list() {
    for t in [
        ParticleRenderType::GlowCircle,
        ParticleRenderType::Spark,
        ParticleRenderType::Flame,
        ParticleRenderType::Smoke,
        ParticleRenderType::Star,
    ] {
        assert_eq!(ParticleRenderType::from_index(t.shader_index()), t);
    }
    assert_eq!(ParticleRenderType::from_index(9), ParticleRenderType::GlowCircle);
    assert_eq!(ParticleRenderType::Spark.label(), "Spark/Flare");
    assert_eq!(ParticleRenderType::Smoke.label(), "Smoke/Cloud");
    assert_eq!(ParticleRenderType::GlowCircle.label(), "Glow Circle");
    assert_eq!(ParticleBlendMode::Additive.index(), 0);
    assert_eq!(ParticleBlendMode::Alpha.index(), 1);
}

#[test]
fn loaded_model_joins_scene_and_panel() {
    let mut scene: Scene<&'static str, i32> = Scene::new();
    let mut panel: ModelManager<u8, String> = ModelManager::new();
    let g0 = add_loaded_model(&mut scene, &mut panel, vec!["a", "b"], 1, "a.glb", 0);
    let g1 = add_loaded_model(&mut scene, &mut panel, vec!["c"], 2, "c.glb", 0);
    assert_eq!((g0, g1), (0, 1));
    assert_eq!(panel.models[0].group_id, g0);
    assert_eq!(panel.models[0].mesh_count, 2);
    assert_eq!(panel.models[1].group_id, g1);
    assert_eq!(panel.models[1].filename, "c.glb");
    assert_eq!(scene.meshes.len(), 3);
    // Removing in the panel and draining the queue clears the scene group.
    panel.remove_model(0);
    let queued = panel.take_pending_removals();
    scene.remove_user_models(&queued);
    let left: Vec<&str> = scene.meshes.iter().map(|m| m.mesh).collect();
    assert_eq!(left, vec!["c"]);
    scene.remove_user_models(&vec![g1, g0, 7]);
    assert!(scene.meshes.is_empty());
}
