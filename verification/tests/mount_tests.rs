use rshim::mount::{
    compact_lowerdir_option, find_overlay_lower_dirs, longest_common_prefix, mount_flag_of,
    options_size, parent_of, parse_mount_options, umount_all_result, umount_should_retry, Mount,
    MountPair, EBUSY, EINVAL, MS_BIND, MS_NODEV, MS_NOEXEC, MS_NOSUID, MS_RDONLY, MS_REC,
};

fn v(items: &[&str]) -> Vec<String> {
    items.iter().map(|s| s.to_string()).collect()
}

#[test]
fn options_size_sums_byte_lengths() {
    assert_eq!(options_size(&v(&[])), 0);
    assert_eq!(options_size(&v(&["ro", "nosuid"])), 8);
}

#[test]
fn flag_table_entries() {
    assert_eq!(mount_flag_of("ro"), Some(MountPair::new(false, MS_RDONLY)));
    assert_eq!(mount_flag_of("rw"), Some(MountPair::new(true, MS_RDONLY)));
    assert_eq!(mount_flag_of("rbind"), Some(MountPair::new(false, MS_BIND | MS_REC)));
    assert_eq!(mount_flag_of("defaults"), Some(MountPair::new(false, 0)));
    assert_eq!(mount_flag_of("lowerdir=/x"), None);
}

#[test]
fn parse_mount_options_splits_flags_and_data() {
    let (flags, data) = parse_mount_options(&v(&["ro", "nosuid", "nodev", "noexec", "mode=755"]));
    assert_eq!(flags, MS_RDONLY | MS_NOSUID | MS_NODEV | MS_NOEXEC);
    assert_eq!(data, "mode=755");
}

#[test]
fn parse_mount_options_clears_bits_in_order() {
    let (flags, data) = parse_mount_options(&v(&["ro", "rw", "defaults", "a=b", "c=d"]));
    assert_eq!(flags, 0);
    assert_eq!(data, "defaults,a=b,c=d");
}

#[test]
fn find_lower_dirs() {
    let (idx, dirs) = find_overlay_lower_dirs(&v(&["index=off", "lowerdir=/a/x:/a/y", "metacopy=on"]));
    assert_eq!(idx, 1);
    assert_eq!(dirs, vec!["/a/x".to_string(), "/a/y".to_string()]);

    let (idx, dirs) = find_overlay_lower_dirs(&v(&["index=off"]));
    assert_eq!(idx, -1);
    assert!(dirs.is_empty());
}

#[test]
fn longest_common_prefix_cases() {
    assert_eq!(longest_common_prefix(&v(&[])), "");
    assert_eq!(longest_common_prefix(&v(&["/a/b/c"])), "/a/b/c");
    assert_eq!(longest_common_prefix(&v(&["/a/bx", "/a/by", "/a/bz"])), "/a/b");
    assert_eq!(longest_common_prefix(&v(&["abc", "xyz"])), "");
}

#[test]
fn parent_of_cases() {
    assert_eq!(parent_of(""), None);
    assert_eq!(parent_of("/"), None);
    assert_eq!(parent_of("abc"), Some("".to_string()));
    assert_eq!(parent_of("/abc"), Some("/".to_string()));
    assert_eq!(parent_of("/a/b/c"), Some("/a/b".to_string()));
}

#[test]
fn compact_keeps_short_lists() {
    let (cdir, vstr) = compact_lowerdir_option(&v(&["index=off", "metacopy=on"]));
    assert_eq!(cdir, "");
    assert_eq!(vstr, vec!["index=off".to_string()]);
}

#[test]
fn compact_rewrites_lower_dirs() {
    let (cdir, vstr) = compact_lowerdir_option(&v(&["index=off", "lowerdir=/snap/1/fs:/snap/2/fs"]));
    assert_eq!(cdir, "/snap/");
    assert_eq!(
        vstr,
        vec!["index=off".to_string(), "lowerdir=1/fs:2/fs".to_string()]
    );
}

#[test]
fn mount_plan_bind_mount() {
    let m = Mount::new("none".to_string(), "/src".to_string(), v(&["rbind", "ro"]));
    let plan = m.mount_plan("/target", 4096).expect("plan");
    assert_eq!(plan.flags, MS_BIND | MS_REC | MS_RDONLY);
    assert_eq!(plan.data, "");
    assert!(plan.cdir.is_none());
    // the mount proper, then the read-only bind remount
    assert_eq!(plan.calls.len(), 2);
    assert_eq!(plan.calls[0].source, "/src");
    assert_eq!(plan.calls[0].target, "/target");
    assert_eq!(plan.calls[0].flags, MS_BIND | MS_REC | MS_RDONLY);
    assert_eq!(plan.calls[1].flags, 0);
}

#[test]
fn mount_plan_rejects_oversized_data() {
    let big = "x".repeat(5000);
    let m = Mount::new("ext4".to_string(), "/dev/sda1".to_string(), vec![big]);
    assert!(m.mount_plan("/target", 4096).is_err());
}

#[test]
fn umount_policies() {
    assert!(umount_should_retry(EBUSY, 0));
    assert!(umount_should_retry(EBUSY, 49));
    assert!(!umount_should_retry(EBUSY, 50));
    assert!(!umount_should_retry(0, 0));
    assert_eq!(umount_all_result(EINVAL), 0);
    assert_eq!(umount_all_result(0), 0);
    assert_eq!(umount_all_result(1), 1);
}
