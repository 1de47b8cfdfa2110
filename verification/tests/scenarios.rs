//! End-to-end walks over the facade, with the raw runtime replies supplied
//! as fixed values: each test follows one hosting scenario from domain
//! initialization to the final call.

use mono_rt::Domain;
use mono_rt::DomainState;
use mono_rt::MonoError;
use mono_rt::alloc_to_ptr;

#[test]
fn hello_static_call_without_arguments() {
    let mut state = DomainState::new();
    let name_c = Domain::new(&state, b"test").unwrap();
    assert_eq!(name_c, b"test\0".to_vec());
    let domain = Domain::new_reply(&mut state, 0x1000).unwrap();

    let path_c = domain.open_assembly(&state, b"Program.exe").unwrap();
    let assembly = domain.open_assembly_reply(path_c, 0x4000).unwrap();
    let image = assembly.get_image(0x5000);
    let class = image.get_class(b"App", b"Program").map(|(ns_c, n_c)| {
        assert_eq!(ns_c, b"App\0".to_vec());
        assert_eq!(n_c, b"Program\0".to_vec());
        image.get_class_reply(0x6000).unwrap()
    });
    let class = class.unwrap();

    let (method_name_c, arity) = class.get_method_from_name(b"CallFromRust", 0).unwrap();
    assert_eq!(method_name_c, b"CallFromRust\0".to_vec());
    assert_eq!(arity, 0);
    let method = class.get_method_reply(0x7000).unwrap();

    // Static method: no receiver; the managed side returns void.
    assert_eq!(method.invoke_receiver(None), 0);
    let ret = method.invoke_reply(0);
    assert!(ret.is_null());
}

#[test]
fn primitive_arguments_are_passed_by_cell_address() {
    let mut state = DomainState::new();
    let _ = Domain::new(&state, b"test").unwrap();
    let domain = Domain::new_reply(&mut state, 0x1000).unwrap();
    let path_c = domain.open_assembly(&state, b"Program.exe").unwrap();
    let assembly = domain.open_assembly_reply(path_c, 0x4000).unwrap();
    let image = assembly.get_image(0x5000);
    let class = image.get_class_reply(0x6000).unwrap();

    let (name_c, arity) = class.get_method_from_name(b"PrintNumber", 2).unwrap();
    assert_eq!(name_c, b"PrintNumber\0".to_vec());
    assert_eq!(arity, 2);
    let method = class.get_method_reply(0x7000).unwrap();

    let params = [alloc_to_ptr(36_u32), alloc_to_ptr(42_u32)];
    assert_eq!(params.len(), 2);
    assert!(params[0] != 0 && params[1] != 0);
    assert_ne!(params[0], params[1]);
    assert_eq!(method.invoke_receiver(None), 0);
}

#[test]
fn object_lifecycle_constructor_rename_greet() {
    let mut state = DomainState::new();
    let _ = Domain::new(&state, b"test").unwrap();
    let domain = Domain::new_reply(&mut state, 0x1000).unwrap();
    let path_c = domain.open_assembly(&state, b"Program.exe").unwrap();
    let assembly = domain.open_assembly_reply(path_c, 0x4000).unwrap();
    let image = assembly.get_image(0x5000);

    let _ = image.get_class(b"App", b"Person").unwrap();
    let person_class = image.get_class_reply(0x6100).unwrap();
    let set_name = {
        let _ = person_class.get_method_from_name(b"SetName", 1).unwrap();
        person_class.get_method_reply(0x7100).unwrap()
    };
    let constructor = {
        let _ = person_class.get_method_from_name(b".ctor", 1).unwrap();
        person_class.get_method_reply(0x7200).unwrap()
    };
    let greet = {
        let _ = person_class.get_method_from_name(b"Greet", 0).unwrap();
        person_class.get_method_reply(0x7300).unwrap()
    };

    // Allocation runs no constructor; the handle is exactly the allocator's
    // reply.
    let person = domain.create_object(&state, 0x9000);
    assert!(!person.is_null());

    let first_name_c = domain.create_string(&state, b"RustPerson").unwrap();
    assert_eq!(first_name_c, b"RustPerson\0".to_vec());
    let first_name = domain.create_string_reply(0xa000);
    assert_eq!(constructor.invoke_receiver(Some(&person)), 0x9000);
    assert_eq!(first_name.into_raw(), 0xa000);

    assert_eq!(greet.invoke_receiver(Some(&person)), 0x9000);

    let second_name_c = domain.create_string(&state, b"RustPerson2").unwrap();
    assert_eq!(second_name_c, b"RustPerson2\0".to_vec());
    assert_eq!(set_name.invoke_receiver(Some(&person)), 0x9000);

    assert_eq!(greet.invoke_receiver(Some(&person)), 0x9000);
}

#[test]
fn internal_call_registration_and_host_string() {
    let mut state = DomainState::new();
    let _ = Domain::new(&state, b"test").unwrap();
    let domain = Domain::new_reply(&mut state, 0x1000).unwrap();

    let path_c = domain
        .add_internal_call(&state, b"App.Hello::GetString")
        .unwrap();
    assert_eq!(path_c, b"App.Hello::GetString\0".to_vec());

    // The host-side callback allocates the managed string; the handle the
    // managed caller receives wraps exactly the allocator's reply.
    let text_c = domain.create_string(&state, b"string from rust").unwrap();
    assert_eq!(text_c, b"string from rust\0".to_vec());
    let handle = domain.create_string_reply(0xa100);
    assert_eq!(handle.into_raw(), 0xa100);
}

#[test]
fn exec_passes_the_assembly_path_as_first_argument() {
    let mut state = DomainState::new();
    let _ = Domain::new(&state, b"test").unwrap();
    let domain = Domain::new_reply(&mut state, 0x1000).unwrap();
    let path_c = domain.open_assembly(&state, b"Program.exe").unwrap();
    let assembly = domain.open_assembly_reply(path_c, 0x4000).unwrap();
    let argv = assembly.exec();
    assert_eq!(argv, vec![b"Program.exe\0".to_vec()]);
}

#[test]
fn double_init_request_is_refused() {
    let mut state = DomainState::new();
    let _ = Domain::new(&state, b"test").unwrap();
    let _domain = Domain::new_reply(&mut state, 0x1000).unwrap();
    // The embedding layer turns this refusal into the fatal abort the
    // runtime demands.
    let second = Domain::new(&state, b"test");
    assert_eq!(second, Err(MonoError::DomainAlreadyExists));
}
