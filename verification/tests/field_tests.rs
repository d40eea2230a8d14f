use netlink_packet_audit::fields::field_code;
use netlink_packet_audit::fields::field_string;
use netlink_packet_audit::fields::int_field_from_code;
use netlink_packet_audit::fields::str_field_from_code;
use netlink_packet_audit::fields::string_code;
use netlink_packet_audit::RuleField;

fn all_fields() -> Vec<RuleField> {
    let s = b"x".to_vec();
    vec![
        RuleField::Watch(s.clone()),
        RuleField::Dir(s.clone()),
        RuleField::Filterkey(s.clone()),
        RuleField::SubjUser(s.clone()),
        RuleField::SubjRole(s.clone()),
        RuleField::SubjType(s.clone()),
        RuleField::SubjSen(s.clone()),
        RuleField::SubjClr(s.clone()),
        RuleField::ObjUser(s.clone()),
        RuleField::ObjRole(s.clone()),
        RuleField::ObjType(s.clone()),
        RuleField::ObjLevLow(s.clone()),
        RuleField::ObjLevHigh(s.clone()),
        RuleField::Pid(1),
        RuleField::Uid(1),
        RuleField::Euid(1),
        RuleField::Suid(1),
        RuleField::Fsuid(1),
        RuleField::Gid(1),
        RuleField::Egid(1),
        RuleField::Sgid(1),
        RuleField::Fsgid(1),
        RuleField::Loginuid(1),
        RuleField::Pers(1),
        RuleField::Arch(1),
        RuleField::Msgtype(1),
        RuleField::Ppid(1),
        RuleField::LoginuidSet(1),
        RuleField::Sessionid(1),
        RuleField::Fstype(1),
        RuleField::Devmajor(1),
        RuleField::Devminor(1),
        RuleField::Inode(1),
        RuleField::Exit(1),
        RuleField::Success(1),
        RuleField::Perm(1),
        RuleField::Filetype(1),
        RuleField::ObjUid(1),
        RuleField::ObjGid(1),
        RuleField::FieldCompare(1),
        RuleField::Exe(1),
        RuleField::Arg0(1),
        RuleField::Arg1(1),
        RuleField::Arg2(1),
        RuleField::Arg3(1),
    ]
}

#[test]
fn every_variant_has_a_unique_code() {
    let fields = all_fields();
    assert_eq!(fields.len(), 45);
    let mut codes: Vec<u32> = fields.iter().map(field_code).collect();
    codes.sort_unstable();
    codes.dedup();
    assert_eq!(codes.len(), 45);
}

#[test]
fn every_code_rebuilds_its_variant() {
    for f in all_fields() {
        let code = field_code(&f);
        match field_string(&f) {
            Some(s) => {
                assert!(string_code(code));
                assert!(int_field_from_code(code, 0).is_none());
                let rebuilt = str_field_from_code(code, s.clone()).unwrap();
                assert_eq!(rebuilt, f);
            }
            None => {
                assert!(!string_code(code));
                assert!(str_field_from_code(code, Vec::new()).is_none());
                let rebuilt = int_field_from_code(code, 1).unwrap();
                assert_eq!(rebuilt, f);
            }
        }
    }
}
