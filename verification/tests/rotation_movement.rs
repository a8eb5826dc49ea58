//! Frame-level behavior of the free-rotation and free-movement systems, with
//! the single-precision kernel applied the way a host would apply it.

use camera_controls::events::{EventChannel, InputEvent};
use camera_controls::resources::{HideCursor, WindowFocus};
use camera_controls::rotation::RotateAction;
use camera_controls::store::{Entity, Quat, Vec3, World};
use camera_controls::{build_fly_movement_system, build_free_rotation_system};
use nalgebra::{Quaternion, UnitQuaternion, Vector3};

fn quat_from_bits(q: Quat) -> UnitQuaternion<f32> {
    UnitQuaternion::from_quaternion(Quaternion::new(
        f32::from_bits(q.w_bits),
        f32::from_bits(q.i_bits),
        f32::from_bits(q.j_bits),
        f32::from_bits(q.k_bits),
    ))
}

fn quat_to_bits(q: UnitQuaternion<f32>) -> Quat {
    let c = q.into_inner();
    Quat {
        i_bits: c.i.to_bits(),
        j_bits: c.j.to_bits(),
        k_bits: c.k.to_bits(),
        w_bits: c.w.to_bits(),
    }
}

fn identity_quat() -> Quat {
    quat_to_bits(UnitQuaternion::identity())
}

fn vec3_to_bits(v: Vector3<f32>) -> Vec3 {
    Vec3 { x_bits: v.x.to_bits(), y_bits: v.y.to_bits(), z_bits: v.z.to_bits() }
}

fn vec3_from_bits(v: Vec3) -> Vector3<f32> {
    Vector3::new(f32::from_bits(v.x_bits), f32::from_bits(v.y_bits), f32::from_bits(v.z_bits))
}

/// Composes each returned rotation onto the running orientation, in order:
/// yaw from dx, pitch from dy with inverted sign, both in degrees, applied by
/// right-multiplication.
fn apply_rotate_actions(world: &mut World, actions: &[RotateAction], sx_bits: u32, sy_bits: u32) {
    for a in actions {
        if let Some(qb) = world.rotation(a.entity) {
            let dx = f64::from_bits(a.dx_bits) as f32;
            let dy = f64::from_bits(a.dy_bits) as f32;
            let sx = f32::from_bits(sx_bits);
            let sy = f32::from_bits(sy_bits);
            let step = UnitQuaternion::from_euler_angles(
                (-dy * sy).to_radians(),
                (-dx * sx).to_radians(),
                0.0,
            );
            let composed = quat_from_bits(qb) * step;
            world.set_rotation(a.entity, quat_to_bits(composed));
        }
    }
}

/// Translates each returned entity by the direction, rotated into the
/// entity's own orientation frame, times elapsed seconds times speed.
fn apply_move(world: &mut World, targets: &[Entity], direction: Vector3<f32>, dt: f32, speed_bits: u32) {
    for e in targets {
        if let Some(tb) = world.translation(*e) {
            let facing = match world.rotation(*e) {
                Some(qb) => quat_from_bits(qb) * direction,
                None => direction,
            };
            let moved = vec3_from_bits(tb) + facing * dt * f32::from_bits(speed_bits);
            world.set_translation(*e, vec3_to_bits(moved));
        }
    }
}

fn fly_entity(world: &mut World) -> Entity {
    let e = world.create_entity();
    world.set_fly_control(e, true);
    world.set_rotation(e, identity_quat());
    world.set_translation(e, vec3_to_bits(Vector3::new(0.0, 0.0, 0.0)));
    e
}

#[test]
fn rotation_yaw_follows_horizontal_delta() {
    let mut world = World::new();
    let e = fly_entity(&mut world);

    let mut channel = EventChannel::new();
    let sens = 1.0f32.to_bits();
    let mut sys = build_free_rotation_system(sens, sens, &channel);
    channel.single_write(InputEvent::DeviceMotion {
        dx_bits: 10.0f64.to_bits(),
        dy_bits: 0.0f64.to_bits(),
    });

    let focus = WindowFocus { is_focused: true };
    let hide = HideCursor { hide: true };
    let actions = sys.run(&channel, &focus, &hide, &world);
    assert_eq!(actions.len(), 1);
    assert_eq!(actions[0].entity, e);

    apply_rotate_actions(&mut world, &actions, sens, sens);
    let (roll, pitch, yaw) = quat_from_bits(world.rotation(e).unwrap()).euler_angles();
    // Positive dx turns the view right: ten degrees of negative rotation
    // about the vertical axis.
    assert!((pitch - (-10.0f32).to_radians()).abs() < 1e-5);
    assert!(roll.abs() < 1e-6);
    assert!(yaw.abs() < 1e-6);
}

#[test]
fn rotation_two_half_deltas_match_one_full() {
    let sens = 1.0f32.to_bits();
    let focus = WindowFocus { is_focused: true };
    let hide = HideCursor { hide: true };

    let mut world_a = World::new();
    let ea = fly_entity(&mut world_a);
    let mut channel_a = EventChannel::new();
    let mut sys_a = build_free_rotation_system(sens, sens, &channel_a);
    channel_a.single_write(InputEvent::DeviceMotion {
        dx_bits: 5.0f64.to_bits(),
        dy_bits: 0.0f64.to_bits(),
    });
    channel_a.single_write(InputEvent::DeviceMotion {
        dx_bits: 5.0f64.to_bits(),
        dy_bits: 0.0f64.to_bits(),
    });
    let actions_a = sys_a.run(&channel_a, &focus, &hide, &world_a);
    assert_eq!(actions_a.len(), 2);
    apply_rotate_actions(&mut world_a, &actions_a, sens, sens);

    let mut world_b = World::new();
    let eb = fly_entity(&mut world_b);
    let mut channel_b = EventChannel::new();
    let mut sys_b = build_free_rotation_system(sens, sens, &channel_b);
    channel_b.single_write(InputEvent::DeviceMotion {
        dx_bits: 10.0f64.to_bits(),
        dy_bits: 0.0f64.to_bits(),
    });
    let actions_b = sys_b.run(&channel_b, &focus, &hide, &world_b);
    assert_eq!(actions_b.len(), 1);
    apply_rotate_actions(&mut world_b, &actions_b, sens, sens);

    let qa = quat_from_bits(world_a.rotation(ea).unwrap()).into_inner();
    let qb = quat_from_bits(world_b.rotation(eb).unwrap()).into_inner();
    // Two five-degree steps about the same axis compose to one ten-degree
    // step, up to single-precision rounding.
    assert!((qa.i - qb.i).abs() < 1e-6);
    assert!((qa.j - qb.j).abs() < 1e-6);
    assert!((qa.k - qb.k).abs() < 1e-6);
    assert!((qa.w - qb.w).abs() < 1e-6);
}

#[test]
fn rotation_composes_in_arrival_order() {
    let sens = 1.0f32.to_bits();
    let focus = WindowFocus { is_focused: true };
    let hide = HideCursor { hide: true };
    let yaw_event = InputEvent::DeviceMotion {
        dx_bits: 30.0f64.to_bits(),
        dy_bits: 0.0f64.to_bits(),
    };
    let pitch_event = InputEvent::DeviceMotion {
        dx_bits: 0.0f64.to_bits(),
        dy_bits: 30.0f64.to_bits(),
    };

    let mut world_a = World::new();
    let ea = fly_entity(&mut world_a);
    let mut channel_a = EventChannel::new();
    let mut sys_a = build_free_rotation_system(sens, sens, &channel_a);
    channel_a.single_write(yaw_event);
    channel_a.single_write(pitch_event);
    let actions_a = sys_a.run(&channel_a, &focus, &hide, &world_a);
    apply_rotate_actions(&mut world_a, &actions_a, sens, sens);

    let mut world_b = World::new();
    let eb = fly_entity(&mut world_b);
    let mut channel_b = EventChannel::new();
    let mut sys_b = build_free_rotation_system(sens, sens, &channel_b);
    channel_b.single_write(pitch_event);
    channel_b.single_write(yaw_event);
    let actions_b = sys_b.run(&channel_b, &focus, &hide, &world_b);
    apply_rotate_actions(&mut world_b, &actions_b, sens, sens);

    // Local-frame tumble is deliberately non-commutative: swapping the two
    // events changes the outcome, so delivery order is part of the contract.
    let qa = quat_from_bits(world_a.rotation(ea).unwrap()).into_inner();
    let qb = quat_from_bits(world_b.rotation(eb).unwrap()).into_inner();
    let gap = (qa.i - qb.i).abs() + (qa.j - qb.j).abs() + (qa.k - qb.k).abs()
        + (qa.w - qb.w).abs();
    assert!(gap > 1e-4);
}

#[test]
fn rotation_never_fires_with_hide_off() {
    let mut world = World::new();
    let e = fly_entity(&mut world);
    let before = world.rotation(e).unwrap();

    let mut channel = EventChannel::new();
    let sens = 1.0f32.to_bits();
    let mut sys = build_free_rotation_system(sens, sens, &channel);
    channel.single_write(InputEvent::DeviceMotion {
        dx_bits: 42.0f64.to_bits(),
        dy_bits: 17.0f64.to_bits(),
    });
    channel.single_write(InputEvent::WindowFocusChanged { focused: true });
    channel.single_write(InputEvent::DeviceMotion {
        dx_bits: 1.0f64.to_bits(),
        dy_bits: 1.0f64.to_bits(),
    });

    let focus = WindowFocus { is_focused: true };
    let hide = HideCursor { hide: false };
    let actions = sys.run(&channel, &focus, &hide, &world);
    assert_eq!(actions.len(), 0);
    assert_eq!(world.rotation(e).unwrap(), before);
}

#[test]
fn rotation_never_fires_unfocused() {
    let mut world = World::new();
    let e = fly_entity(&mut world);
    let before = world.rotation(e).unwrap();

    let mut channel = EventChannel::new();
    let sens = 1.0f32.to_bits();
    let mut sys = build_free_rotation_system(sens, sens, &channel);
    channel.single_write(InputEvent::DeviceMotion {
        dx_bits: 3.0f64.to_bits(),
        dy_bits: 4.0f64.to_bits(),
    });

    let focus = WindowFocus { is_focused: false };
    let hide = HideCursor { hide: true };
    let actions = sys.run(&channel, &focus, &hide, &world);
    assert_eq!(actions.len(), 0);
    assert_eq!(world.rotation(e).unwrap(), before);
}

#[test]
fn movement_moves_one_unit_along_facing() {
    let mut world = World::new();
    let e = fly_entity(&mut world);

    let speed = 2.0f32.to_bits();
    let sys = build_fly_movement_system(speed, Some(String::from("move_x")), None, None);

    let direction = Vector3::new(1.0f32, 0.0, 0.0);
    let targets = sys.run(&Some(vec3_to_bits(direction)), &world);
    assert_eq!(targets.len(), 1);
    assert_eq!(targets[0], e);

    apply_move(&mut world, &targets, direction, 0.5, speed);
    let t = world.translation(e).unwrap();
    // speed 2.0 for half a second along the local +x axis: exactly one unit.
    assert_eq!(f32::from_bits(t.x_bits), 1.0);
    assert_eq!(f32::from_bits(t.y_bits), 0.0);
    assert_eq!(f32::from_bits(t.z_bits), 0.0);
}

#[test]
fn movement_zero_input_is_a_no_op() {
    let mut world = World::new();
    let e = fly_entity(&mut world);
    let before = world.translation(e).unwrap();

    let speed = 2.0f32.to_bits();
    let sys = build_fly_movement_system(speed, None, None, None);
    let targets = sys.run(&None, &world);
    assert_eq!(targets.len(), 0);
    assert_eq!(world.translation(e).unwrap(), before);
}

#[test]
fn movement_skips_untagged_entities() {
    let mut world = World::new();
    let tagged = fly_entity(&mut world);
    let plain = world.create_entity();
    world.set_translation(plain, vec3_to_bits(Vector3::new(4.0, 5.0, 6.0)));

    let sys = build_fly_movement_system(1.0f32.to_bits(), None, None, None);
    let direction = Vector3::new(0.0f32, 1.0, 0.0);
    let targets = sys.run(&Some(vec3_to_bits(direction)), &world);
    assert_eq!(targets.len(), 1);
    assert_eq!(targets[0], tagged);
}
