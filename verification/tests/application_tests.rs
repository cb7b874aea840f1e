use mesh_bridge::Application;
use mesh_bridge::DispatchError;
use mesh_bridge::Element;
use mesh_bridge::ElementControlHandle;
use mesh_bridge::Provisioner;
use mesh_bridge::ProvisionerControlHandle;
use mesh_bridge::RegisterError;
use mesh_bridge::RegisteredApplication;
use mesh_bridge::RegisteredObject;
use mesh_bridge::RegisteredProvisioner;
use mesh_bridge::RegistrationTable;
use mesh_bridge::ReqError;

fn element_at(path: &str) -> Element {
    Element {
        models: Vec::new(),
        path: path.to_string(),
        control_handle: Some(ElementControlHandle::default()),
    }
}

fn two_element_app() -> Application {
    Application {
        path: "/example/application".to_string(),
        elements: vec![element_at("/example/ele00"), element_at("/example/ele01")],
        provisioner: None,
    }
}

#[test]
fn register_inserts_whole_tree() {
    let mut table = RegistrationTable::new();
    let reg = RegisteredApplication::new(two_element_app());
    let handle = reg.register("/example".to_string(), &mut table).unwrap();
    assert!(!handle.released);
    assert_eq!(handle.name, "/example");
    assert_eq!(
        handle.paths,
        vec![
            "/example".to_string(),
            "/example/agent".to_string(),
            "/example/application".to_string(),
            "/example/ele00".to_string(),
            "/example/ele01".to_string(),
        ]
    );
    assert_eq!(table.call_at(&"/example".to_string()), Ok(RegisteredObject::Root));
    assert_eq!(table.call_at(&"/example/agent".to_string()), Ok(RegisteredObject::Agent));
    assert_eq!(
        table.call_at(&"/example/application".to_string()),
        Ok(RegisteredObject::Application { provisioner: false })
    );
    assert_eq!(
        table.call_at(&"/example/ele00".to_string()),
        Ok(RegisteredObject::Element { index: 0 })
    );
    assert_eq!(
        table.call_at(&"/example/ele01".to_string()),
        Ok(RegisteredObject::Element { index: 1 })
    );
}

#[test]
fn register_with_provisioner_tags_application() {
    let mut table = RegistrationTable::new();
    let mut app = two_element_app();
    app.provisioner = Some(Provisioner { control_handle: ProvisionerControlHandle::default() });
    let reg = RegisteredApplication::new(app);
    assert!(reg.provisioner.is_some());
    let _handle = reg.register("/example".to_string(), &mut table).unwrap();
    assert_eq!(
        table.call_at(&"/example/application".to_string()),
        Ok(RegisteredObject::Application { provisioner: true })
    );
}

#[test]
fn register_fails_atomically_on_path_in_use() {
    let mut table = RegistrationTable::new();
    table.insert("/example/ele01".to_string(), RegisteredObject::Root).unwrap();
    let reg = RegisteredApplication::new(two_element_app());
    let r = reg.register("/example".to_string(), &mut table);
    assert_eq!(r.err(), Some(RegisterError::PathInUse));
    // Nothing of the tree was inserted.
    assert_eq!(
        table.call_at(&"/example".to_string()),
        Err(DispatchError::NotFound)
    );
    assert_eq!(
        table.call_at(&"/example/ele00".to_string()),
        Err(DispatchError::NotFound)
    );
}

#[test]
fn register_fails_on_repeated_path() {
    let mut table = RegistrationTable::new();
    let app = Application {
        path: "/example/application".to_string(),
        elements: vec![element_at("/example/ele00"), element_at("/example/ele00")],
        provisioner: None,
    };
    let r = RegisteredApplication::new(app).register("/example".to_string(), &mut table);
    assert_eq!(r.err(), Some(RegisterError::PathInUse));
    assert_eq!(table.call_at(&"/example".to_string()), Err(DispatchError::NotFound));
}

#[test]
fn release_removes_root_and_element_paths() {
    let mut table = RegistrationTable::new();
    let reg = RegisteredApplication::new(two_element_app());
    let mut handle = reg.register("/example".to_string(), &mut table).unwrap();
    assert_eq!(handle.release(&mut table), Ok(()));
    assert!(handle.released);
    assert_eq!(table.call_at(&"/example".to_string()), Err(DispatchError::NotFound));
    assert_eq!(table.call_at(&"/example/ele00".to_string()), Err(DispatchError::NotFound));
    assert_eq!(table.call_at(&"/example/ele01".to_string()), Err(DispatchError::NotFound));
    assert_eq!(table.call_at(&"/example/agent".to_string()), Err(DispatchError::NotFound));
    assert_eq!(
        table.call_at(&"/example/application".to_string()),
        Err(DispatchError::NotFound)
    );
}

#[test]
fn release_is_idempotent() {
    let mut table = RegistrationTable::new();
    let reg = RegisteredApplication::new(two_element_app());
    let mut handle = reg.register("/example".to_string(), &mut table).unwrap();
    assert_eq!(handle.release(&mut table), Ok(()));
    assert_eq!(handle.release(&mut table), Ok(()));
    assert!(handle.released);
}

#[test]
fn release_leaves_other_registrations() {
    let mut table = RegistrationTable::new();
    table.insert("/other".to_string(), RegisteredObject::Root).unwrap();
    let reg = RegisteredApplication::new(two_element_app());
    let mut handle = reg.register("/example".to_string(), &mut table).unwrap();
    handle.release(&mut table).unwrap();
    assert_eq!(table.call_at(&"/other".to_string()), Ok(RegisteredObject::Root));
}

#[test]
fn registry_insert_rejects_duplicate() {
    let mut table = RegistrationTable::new();
    assert_eq!(table.insert("/a".to_string(), RegisteredObject::Root), Ok(()));
    assert_eq!(
        table.insert("/a".to_string(), RegisteredObject::Agent),
        Err(RegisterError::PathInUse)
    );
    assert_eq!(table.call_at(&"/a".to_string()), Ok(RegisteredObject::Root));
}

#[test]
fn registry_remove_returns_object() {
    let mut table = RegistrationTable::new();
    table.insert("/a".to_string(), RegisteredObject::Agent).unwrap();
    assert_eq!(table.remove(&"/a".to_string()), Some(RegisteredObject::Agent));
    assert_eq!(table.remove(&"/a".to_string()), None);
    assert!(!table.contains(&"/a".to_string()));
}

#[test]
fn application_properties() {
    let reg = RegisteredApplication::new(Application::default());
    assert_eq!(reg.company_id(), 0x05F1);
    assert_eq!(reg.product_id(), 0x0001);
    assert_eq!(reg.version_id(), 0x0001);
    assert_eq!(reg.join_complete(7), Ok(()));
    assert_eq!(reg.join_failed("busy"), Ok(()));
}

#[test]
fn provisioner_handlers() {
    let prov = RegisteredProvisioner::new(Provisioner {
        control_handle: ProvisionerControlHandle::default(),
    });
    assert_eq!(prov.add_node_complete(&vec![1, 2], 0x00BD, 1), Ok(()));
    assert_eq!(prov.add_node_failed(&vec![1, 2], "timeout"), Ok(()));
    assert_eq!(prov.request_prov_data(1), Ok((0x0000, 0x00BD)));
    assert_eq!(prov.version_id(), 0x0001);
    let _: Result<(), ReqError> = prov.add_node_complete(&Vec::new(), 0, 0);
}
