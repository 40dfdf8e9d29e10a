use rcopy::{
    calc_percent, file_already_copied, plan_parent_dirs, transfer_rate, DestinationError,
    DirLevel, IoFailure, IoFailureKind, MkDstDirError, PathStatus,
};

fn level(path: &str, status: PathStatus) -> DirLevel {
    DirLevel { path: path.to_string(), status }
}

#[test]
fn equal_size_destination_is_skipped() {
    assert!(matches!(file_already_copied(PathStatus::File { size: 4096 }, 4096), Ok(true)));
    assert!(matches!(file_already_copied(PathStatus::File { size: 0 }, 0), Ok(true)));
}

#[test]
fn other_destinations_are_copied() {
    assert!(matches!(file_already_copied(PathStatus::File { size: 4095 }, 4096), Ok(false)));
    assert!(matches!(file_already_copied(PathStatus::File { size: 5000 }, 4096), Ok(false)));
    assert!(matches!(file_already_copied(PathStatus::Missing, 4096), Ok(false)));
}

#[test]
fn directory_at_destination_is_an_error() {
    assert!(matches!(
        file_already_copied(PathStatus::Directory, 1),
        Err(DestinationError::IsDirectory)
    ));
    let f = IoFailure { kind: IoFailureKind::Other, message: "eacces".to_string() };
    assert!(matches!(
        file_already_copied(PathStatus::Failed(f), 1),
        Err(DestinationError::Io(g)) if g.message == "eacces"
    ));
}

#[test]
fn three_missing_levels_are_all_created() {
    let levels = vec![
        level("/dst", PathStatus::Directory),
        level("/dst/a", PathStatus::Missing),
        level("/dst/a/b", PathStatus::Missing),
        level("/dst/a/b/c", PathStatus::Missing),
    ];
    assert!(matches!(plan_parent_dirs(&levels), Ok(1)));
}

#[test]
fn existing_directories_need_nothing() {
    let levels = vec![level("/dst", PathStatus::Directory), level("/dst/a", PathStatus::Directory)];
    assert!(matches!(plan_parent_dirs(&levels), Ok(2)));
    assert!(matches!(plan_parent_dirs(&Vec::new()), Ok(0)));
}

#[test]
fn plain_file_on_the_way_is_a_conflict() {
    for conflict in 1..4 {
        let mut levels = vec![level("/dst", PathStatus::Directory)];
        for i in 1..4 {
            let path = format!("/dst/{}", "abc".chars().take(i).collect::<String>());
            let status = if i < conflict {
                PathStatus::Directory
            } else if i == conflict {
                PathStatus::File { size: 3 }
            } else {
                PathStatus::Missing
            };
            levels.push(level(&path, status));
        }
        match plan_parent_dirs(&levels) {
            Err(MkDstDirError::FoundRegularFileNotDir(p)) => assert_eq!(p, levels[conflict].path),
            other => panic!("unexpected {:?}", other),
        }
    }
}

#[test]
fn unreadable_level_is_an_io_error() {
    let f = IoFailure { kind: IoFailureKind::Other, message: "eperm".to_string() };
    let levels = vec![level("/dst", PathStatus::Failed(f)), level("/dst/a", PathStatus::Missing)];
    assert!(matches!(
        plan_parent_dirs(&levels),
        Err(MkDstDirError::IoError(g)) if g.message == "eperm"
    ));
}

#[test]
fn percent_in_hundredths() {
    assert_eq!(calc_percent(0, 0), None);
    assert_eq!(calc_percent(0, 10), Some(0));
    assert_eq!(calc_percent(1, 3), Some(3333));
    assert_eq!(calc_percent(10, 10), Some(10000));
    assert_eq!(calc_percent(i64::MAX - 1, i64::MAX), Some(9999));
}

#[test]
fn rate_in_hundredths_of_mib_per_second() {
    assert_eq!(transfer_rate(100 << 20, 0), None);
    assert_eq!(transfer_rate(100 << 20, 1000), Some(10000));
    assert_eq!(transfer_rate(3 << 20, 2000), Some(150));
    assert_eq!(transfer_rate((1 << 20) - 1, 10), Some(0));
    assert_eq!(transfer_rate(u64::MAX, 1), Some((u64::MAX >> 20) * 100000));
}
