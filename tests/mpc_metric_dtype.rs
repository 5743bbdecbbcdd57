use kodiak::mpc_metric_dtype::{DTypeKind, MPCMetricDType, TypeMismatch};

#[test]
fn take_inner_val() {
    assert_eq!(
        MPCMetricDType::MPCInt32(32).take_inner_val::<i32>(),
        Ok(32i32)
    );
    assert_eq!(
        MPCMetricDType::MPCInt64(64).take_inner_val::<i64>(),
        Ok(64i64)
    );
    assert_eq!(
        MPCMetricDType::MPCUInt32(32).take_inner_val::<u32>(),
        Ok(32u32)
    );
    assert_eq!(
        MPCMetricDType::MPCUInt64(64).take_inner_val::<u64>(),
        Ok(64u64)
    );
    assert_eq!(
        MPCMetricDType::MPCBool(true).take_inner_val::<bool>(),
        Ok(true)
    );
    assert_eq!(
        MPCMetricDType::Vec(vec![MPCMetricDType::MPCBool(true)])
            .take_inner_val::<Vec<MPCMetricDType>>(),
        Ok(vec![MPCMetricDType::MPCBool(true)])
    );

    assert!(
        MPCMetricDType::MPCUInt64(6)
            .take_inner_val::<i32>()
            .is_err()
    )
}

#[test]
fn try_into() {
    assert_eq!(MPCMetricDType::MPCInt32(32).try_into(), Ok(32i32));
    assert_eq!(MPCMetricDType::MPCInt64(64).try_into(), Ok(64i64));
    assert_eq!(MPCMetricDType::MPCUInt32(32).try_into(), Ok(32u32));
    assert_eq!(MPCMetricDType::MPCUInt64(64).try_into(), Ok(64u64));
    assert_eq!(MPCMetricDType::MPCBool(true).try_into(), Ok(true));
    assert_eq!(
        MPCMetricDType::Vec(vec![MPCMetricDType::MPCBool(true)]).try_into(),
        Ok(vec![MPCMetricDType::MPCBool(true)])
    );
}

#[test]
fn round_trip_extreme_values() {
    assert_eq!(MPCMetricDType::MPCInt32(i32::MIN).take_inner_val::<i32>(), Ok(i32::MIN));
    assert_eq!(MPCMetricDType::MPCInt32(i32::MAX).take_inner_val::<i32>(), Ok(i32::MAX));
    assert_eq!(MPCMetricDType::MPCInt64(i64::MIN).take_inner_val::<i64>(), Ok(i64::MIN));
    assert_eq!(MPCMetricDType::MPCUInt32(u32::MAX).take_inner_val::<u32>(), Ok(u32::MAX));
    assert_eq!(MPCMetricDType::MPCUInt64(u64::MAX).take_inner_val::<u64>(), Ok(u64::MAX));
    assert_eq!(MPCMetricDType::MPCBool(false).take_inner_val::<bool>(), Ok(false));
    assert_eq!(
        MPCMetricDType::Vec(vec![]).take_inner_val::<Vec<MPCMetricDType>>(),
        Ok(vec![])
    );
}

#[test]
fn mismatch_names_both_tags() {
    assert_eq!(
        MPCMetricDType::MPCUInt64(6).take_inner_val::<i32>(),
        Err(TypeMismatch { requested: DTypeKind::Int32, actual: DTypeKind::UInt64 })
    );
    assert_eq!(
        MPCMetricDType::MPCInt32(7).take_inner_val::<i64>(),
        Err(TypeMismatch { requested: DTypeKind::Int64, actual: DTypeKind::Int32 })
    );
    assert_eq!(
        MPCMetricDType::MPCInt64(7).take_inner_val::<u64>(),
        Err(TypeMismatch { requested: DTypeKind::UInt64, actual: DTypeKind::Int64 })
    );
    assert_eq!(
        MPCMetricDType::MPCUInt32(7).take_inner_val::<bool>(),
        Err(TypeMismatch { requested: DTypeKind::Bool, actual: DTypeKind::UInt32 })
    );
    assert_eq!(
        MPCMetricDType::MPCBool(true).take_inner_val::<Vec<MPCMetricDType>>(),
        Err(TypeMismatch { requested: DTypeKind::Vec, actual: DTypeKind::Bool })
    );
    assert_eq!(
        MPCMetricDType::Vec(vec![MPCMetricDType::MPCUInt32(1)]).take_inner_val::<u32>(),
        Err(TypeMismatch { requested: DTypeKind::UInt32, actual: DTypeKind::Vec })
    );
}

#[test]
fn heterogeneous_sequence_round_trip() {
    let elems = vec![
        MPCMetricDType::MPCInt32(1),
        MPCMetricDType::MPCBool(false),
        MPCMetricDType::Vec(vec![MPCMetricDType::MPCUInt64(9), MPCMetricDType::MPCInt64(-3)]),
    ];
    let back = MPCMetricDType::Vec(elems.clone())
        .take_inner_val::<Vec<MPCMetricDType>>()
        .unwrap();
    assert_eq!(back, elems);
    let inner = back[2].clone().take_inner_val::<Vec<MPCMetricDType>>().unwrap();
    assert_eq!(inner[0].clone().take_inner_val::<u64>(), Ok(9u64));
    assert_eq!(inner[1].clone().take_inner_val::<i64>(), Ok(-3i64));
}

#[test]
fn equality_is_tag_aware() {
    assert_ne!(MPCMetricDType::MPCInt32(5), MPCMetricDType::MPCUInt32(5));
    assert_ne!(MPCMetricDType::MPCInt64(5), MPCMetricDType::MPCUInt64(5));
    assert_eq!(MPCMetricDType::MPCInt32(5), MPCMetricDType::MPCInt32(5));
    assert_ne!(MPCMetricDType::MPCInt32(5), MPCMetricDType::MPCInt32(6));
    assert_ne!(
        MPCMetricDType::Vec(vec![MPCMetricDType::MPCBool(true), MPCMetricDType::MPCInt32(1)]),
        MPCMetricDType::Vec(vec![MPCMetricDType::MPCInt32(1), MPCMetricDType::MPCBool(true)])
    );
    assert_ne!(
        MPCMetricDType::Vec(vec![MPCMetricDType::MPCBool(true)]),
        MPCMetricDType::Vec(vec![MPCMetricDType::MPCBool(true), MPCMetricDType::MPCBool(true)])
    );
    assert_eq!(
        MPCMetricDType::Vec(vec![MPCMetricDType::Vec(vec![]), MPCMetricDType::MPCUInt64(3)]),
        MPCMetricDType::Vec(vec![MPCMetricDType::Vec(vec![]), MPCMetricDType::MPCUInt64(3)])
    );
}

#[test]
fn clone_keeps_order_and_tags() {
    let v = MPCMetricDType::Vec(vec![
        MPCMetricDType::MPCUInt32(2),
        MPCMetricDType::Vec(vec![MPCMetricDType::MPCBool(true)]),
        MPCMetricDType::MPCInt32(-1),
    ]);
    let c = v.clone();
    assert_eq!(c, v);
    assert_eq!(c.kind(), DTypeKind::Vec);
}

#[test]
fn kind_reports_each_tag() {
    assert_eq!(MPCMetricDType::MPCInt32(0).kind(), DTypeKind::Int32);
    assert_eq!(MPCMetricDType::MPCInt64(0).kind(), DTypeKind::Int64);
    assert_eq!(MPCMetricDType::MPCUInt32(0).kind(), DTypeKind::UInt32);
    assert_eq!(MPCMetricDType::MPCUInt64(0).kind(), DTypeKind::UInt64);
    assert_eq!(MPCMetricDType::MPCBool(false).kind(), DTypeKind::Bool);
    assert_eq!(MPCMetricDType::Vec(vec![]).kind(), DTypeKind::Vec);
}

#[test]
fn debug_renders_nested_values() {
    let v = MPCMetricDType::Vec(vec![MPCMetricDType::MPCBool(true), MPCMetricDType::MPCInt32(4)]);
    assert_eq!(format!("{:?}", v), "Vec([MPCBool(true), MPCInt32(4)])");
}
