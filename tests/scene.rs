use casimir::rf::{DeactivateReason, DeactivateType, Protocol, RfPayload, Technology, BROADCAST};
use casimir::scene::{DeviceType, Scene, SceneError, MAX_DEVICES};

#[test]
fn ids_increase_and_are_not_reused() {
    let mut scene = Scene::new();
    let (slot_a, a) = scene.add_device(DeviceType::Nci).unwrap();
    let (_, b) = scene.add_device(DeviceType::Rf).unwrap();
    assert_eq!((slot_a, a, b), (0, 0, 1));
    scene.disconnect(slot_a);
    let (slot_c, c) = scene.add_device(DeviceType::Rf).unwrap();
    assert_eq!(slot_c, 0);
    assert_eq!(c, 2);
}

#[test]
fn link_loss_broadcast_on_disconnect() {
    let mut scene = Scene::new();
    let (slot_a, a) = scene.add_device(DeviceType::Rf).unwrap();
    let (_, b) = scene.add_device(DeviceType::Rf).unwrap();
    scene.move_device(b, a as u32).unwrap();
    let notifications = scene.disconnect(slot_a);
    assert_eq!(notifications.len(), 1);
    let n = &notifications[0];
    assert_eq!((n.sender, n.receiver), (a, b));
    assert_eq!(n.technology, Technology::NfcA);
    assert_eq!(n.protocol, Protocol::Undetermined);
    assert!(matches!(
        n.payload,
        RfPayload::DeactivateNotification {
            deactivate_type: DeactivateType::Discovery,
            reason: DeactivateReason::RfLinkLoss
        }
    ));
}

#[test]
fn link_loss_goes_to_every_remaining_device_once() {
    let mut scene = Scene::new();
    for _ in 0..4 {
        scene.add_device(DeviceType::Nci).unwrap();
    }
    let notifications = scene.disconnect(1);
    let receivers: Vec<u16> = notifications.iter().map(|p| p.receiver).collect();
    assert_eq!(receivers, vec![0, 2, 3]);
    assert!(notifications.iter().all(|p| p.sender == 1));
    assert_eq!(scene.get_device(1), None);
}

#[test]
fn route_needs_same_position() {
    let mut scene = Scene::new();
    let (_, a) = scene.add_device(DeviceType::Rf).unwrap();
    let (_, b) = scene.add_device(DeviceType::Rf).unwrap();
    let (_, c) = scene.add_device(DeviceType::Nci).unwrap();
    // Every device starts at a position of its own.
    assert_eq!(scene.route(a, BROADCAST), Vec::<usize>::new());
    scene.move_device(b, 7).unwrap();
    scene.move_device(a, 7).unwrap();
    assert_eq!(scene.route(a, BROADCAST), vec![1]);
    assert_eq!(scene.route(a, b), vec![1]);
    assert_eq!(scene.route(a, c), Vec::<usize>::new());
    scene.move_device(c, 7).unwrap();
    assert_eq!(scene.route(a, BROADCAST), vec![1, 2]);
    assert_eq!(scene.route(a, a), Vec::<usize>::new());
}

#[test]
fn route_from_unknown_sender_delivers_nothing() {
    let mut scene = Scene::new();
    scene.add_device(DeviceType::Rf).unwrap();
    assert_eq!(scene.route(42, BROADCAST), Vec::<usize>::new());
}

#[test]
fn device_information() {
    let mut scene = Scene::new();
    let (_, a) = scene.add_device(DeviceType::Nci).unwrap();
    let info = scene.get_device(a).unwrap();
    assert_eq!((info.id, info.position, info.device_type), (a, a as u32, DeviceType::Nci));
    assert_eq!(scene.move_device(9, 1), Err(SceneError::InvalidArgument));
    assert_eq!(scene.get_device(9), None);
    scene.move_device(a, 33).unwrap();
    assert_eq!(scene.list_devices()[0].position, 33);
    assert_eq!(scene.list_devices().len(), 1);
}

#[test]
fn scene_full() {
    let mut scene = Scene::new();
    for _ in 0..MAX_DEVICES {
        scene.add_device(DeviceType::Rf).unwrap();
    }
    assert_eq!(scene.add_device(DeviceType::Rf), Err(SceneError::Full));
}

#[test]
fn ids_exhausted() {
    let mut scene = Scene::new();
    let mut last = 0u16;
    loop {
        match scene.add_device(DeviceType::Rf) {
            Ok((slot, id)) => {
                last = id;
                scene.disconnect(slot);
            }
            Err(err) => {
                assert_eq!(err, SceneError::IdsExhausted);
                break;
            }
        }
    }
    assert_eq!(last, 0xfffe);
}
