use mono_rt::Domain;
use mono_rt::DomainState;
use mono_rt::MonoArray;
use mono_rt::MonoObject;
use mono_rt::MonoString;
use mono_rt::alloc_to_ptr;

fn live_domain() -> (DomainState, Domain) {
    let mut state = DomainState::new();
    let _ = Domain::new(&state, b"test").unwrap();
    let domain = Domain::new_reply(&mut state, 0x1000).unwrap();
    (state, domain)
}

#[test]
fn create_object_wraps_allocator_reply() {
    let (state, domain) = live_domain();
    let obj = domain.create_object(&state, 0x9000);
    assert_eq!(obj.raw, 0x9000);
    assert!(!obj.is_null());
    let null_obj = domain.create_object(&state, 0);
    assert!(null_obj.is_null());
}

#[test]
fn object_pointer_plumbing() {
    let obj = MonoObject::from_raw(0x9000);
    assert_eq!(obj.as_ptr(), 0x9000);
    assert_eq!(obj.into_raw(), 0x9000);
    let cls = MonoObject::from_raw(0x9000).get_class(0x6000);
    assert_eq!(cls.raw, 0x6000);
    let s = MonoObject::from_raw(0x9000).to_mono_string(0xa000);
    assert_eq!(s.raw, 0xa000);
    let thrown = MonoObject::from_raw(0x9000).to_mono_string(0);
    assert!(thrown.is_null());
}

#[test]
fn created_array_reports_requested_length() {
    let (state, domain) = live_domain();
    let arr = domain.create_array(&state, 7, 0xb000);
    assert_eq!(arr.length(), 7);
    assert_eq!(arr.raw, 0xb000);
    assert!(!arr.is_null());
    let empty = domain.create_array(&state, 0, 0xb100);
    assert_eq!(empty.length(), 0);
}

#[test]
fn array_pointer_plumbing() {
    let arr = MonoArray::from_raw(0xb000, 3);
    assert_eq!(arr.length(), 3);
    assert!(!arr.is_null());
    assert_eq!(arr.into_raw(), 0xb000);
    assert!(MonoArray::from_raw(0, 0).is_null());
}

#[test]
fn string_pointer_plumbing_and_interning() {
    let s = MonoString::from_raw(0xa000);
    assert!(!s.is_null());
    assert!(s.is_interned(0xa000));
    assert!(!s.is_interned(0));
    assert_eq!(s.into_raw(), 0xa000);
    assert!(MonoString::from_raw(0).is_null());
}

#[test]
fn type_queries() {
    let (state, domain) = live_domain();
    let path_c = domain.open_assembly(&state, b"Program.exe").unwrap();
    let assembly = domain.open_assembly_reply(path_c, 0x4000).unwrap();
    let image = assembly.get_image(0x5000);
    let class = image.get_class_reply(0x6000).unwrap();
    let field = class.get_field_reply(0x7100).unwrap();
    let ty = field.get_type(0x7200).unwrap();
    assert!(ty.is_void(1));
    assert!(ty.is_void(-5));
    assert!(!ty.is_void(0));
    let backing = ty.get_class(0x6000);
    assert_eq!(backing.raw, 0x6000);
}

#[test]
fn alloc_to_ptr_never_hands_back_null() {
    let a = alloc_to_ptr(36u32);
    let b = alloc_to_ptr(42u32);
    assert_ne!(a, 0);
    assert_ne!(b, 0);
    assert_ne!(a, b);
}
