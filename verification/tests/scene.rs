use render_engine::scene::{MeshInstance, MeshSource, Scene};

fn filename_of(inst: &MeshInstance<&'static str, i32>) -> Option<String> {
    match &inst.source {
        MeshSource::UserModel { filename, .. } => Some(filename.clone()),
        _ => None,
    }
}

fn meshes(scene: &Scene<&'static str, i32>) -> Vec<&'static str> {
    scene.meshes.iter().map(|m| m.mesh).collect()
}

#[test]
fn new_scene_is_empty() {
    let scene: Scene<&'static str, i32> = Scene::new();
    assert!(scene.meshes.is_empty());
    assert_eq!(scene.next_group_id(), 0);
}

#[test]
fn add_mesh_appends_demo_instance() {
    let mut scene: Scene<&'static str, i32> = Scene::new();
    scene.add_mesh("cube", 5, 2);
    assert_eq!(scene.meshes.len(), 1);
    assert_eq!(scene.meshes[0].mesh, "cube");
    assert_eq!(scene.meshes[0].transform, 5);
    assert_eq!(scene.meshes[0].material_index, 2);
    assert!(matches!(scene.meshes[0].source, MeshSource::Demo));
    assert_eq!(scene.meshes[0].source.group_id(), None);
    assert_eq!(scene.next_group_id(), 0);
}

#[test]
fn add_user_model_shares_a_fresh_group() {
    let mut scene: Scene<&'static str, i32> = Scene::new();
    scene.add_mesh("cube", 0, 1);
    let g0 = scene.add_user_model(vec!["a", "b"], 7, "duck.glb");
    let g1 = scene.add_user_model(vec!["c"], 3, "fox.gltf");
    assert_eq!(g0, 0);
    assert_eq!(g1, 1);
    assert_eq!(scene.next_group_id(), 2);
    assert_eq!(meshes(&scene), vec!["cube", "a", "b", "c"]);
    for inst in &scene.meshes[1..3] {
        assert_eq!(inst.source.group_id(), Some(0));
        assert!(inst.source.is_group(0));
        assert!(!inst.source.is_group(1));
        assert_eq!(inst.transform, 7);
        assert_eq!(inst.material_index, 0);
        assert_eq!(filename_of(inst).as_deref(), Some("duck.glb"));
    }
    assert_eq!(scene.meshes[3].source.group_id(), Some(1));
    assert_eq!(filename_of(&scene.meshes[3]).as_deref(), Some("fox.gltf"));
}

#[test]
fn add_user_model_without_meshes_still_issues_an_id() {
    let mut scene: Scene<&'static str, i32> = Scene::new();
    let g = scene.add_user_model(Vec::new(), 0, "empty.glb");
    assert_eq!(g, 0);
    assert_eq!(scene.next_group_id(), 1);
    assert!(scene.meshes.is_empty());
}

#[test]
fn remove_undoes_add() {
    let mut scene: Scene<&'static str, i32> = Scene::new();
    scene.meshes.push(MeshInstance {
        mesh: "ground",
        transform: 0,
        material_index: 0,
        source: MeshSource::EngineDefault,
    });
    scene.add_mesh("cube", 1, 0);
    let g = scene.add_user_model(vec!["a", "b", "c"], 2, "m.glb");
    scene.remove_user_model(g);
    assert_eq!(meshes(&scene), vec!["ground", "cube"]);
    assert_eq!(scene.next_group_id(), 1);
}

#[test]
fn second_removal_changes_nothing() {
    let mut scene: Scene<&'static str, i32> = Scene::new();
    scene.add_mesh("cube", 1, 0);
    let g0 = scene.add_user_model(vec!["a"], 2, "a.glb");
    let _g1 = scene.add_user_model(vec!["b1", "b2"], 3, "b.glb");
    scene.remove_user_model(g0);
    assert_eq!(meshes(&scene), vec!["cube", "b1", "b2"]);
    scene.remove_user_model(g0);
    assert_eq!(meshes(&scene), vec!["cube", "b1", "b2"]);
}

#[test]
fn remove_keeps_other_groups_and_fixtures() {
    let mut scene: Scene<&'static str, i32> = Scene::new();
    let g0 = scene.add_user_model(vec!["a1", "a2"], 0, "a.glb");
    scene.meshes.push(MeshInstance {
        mesh: "ground",
        transform: 0,
        material_index: 0,
        source: MeshSource::EngineDefault,
    });
    let g1 = scene.add_user_model(vec!["b1"], 0, "b.glb");
    scene.add_mesh("demo", 0, 0);
    scene.remove_user_model(g0);
    assert_eq!(meshes(&scene), vec!["ground", "b1", "demo"]);
    scene.remove_user_model(g0);
    assert_eq!(meshes(&scene), vec!["ground", "b1", "demo"]);
    scene.remove_user_model(g1);
    assert_eq!(meshes(&scene), vec!["ground", "demo"]);
    scene.remove_user_model(42);
    assert_eq!(meshes(&scene), vec!["ground", "demo"]);
}

#[test]
fn set_group_transform_touches_only_that_group() {
    let mut scene: Scene<&'static str, i32> = Scene::new();
    scene.add_mesh("demo", 1, 0);
    let g0 = scene.add_user_model(vec!["a1", "a2"], 2, "a.glb");
    let g1 = scene.add_user_model(vec!["b1"], 3, "b.glb");
    scene.set_group_transform(g0, 10);
    let transforms: Vec<i32> = scene.meshes.iter().map(|m| m.transform).collect();
    assert_eq!(transforms, vec![1, 10, 10, 3]);
    scene.set_group_transform(g1, 20);
    let transforms: Vec<i32> = scene.meshes.iter().map(|m| m.transform).collect();
    assert_eq!(transforms, vec![1, 10, 10, 20]);
    assert_eq!(meshes(&scene), vec!["demo", "a1", "a2", "b1"]);
}
