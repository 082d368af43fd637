use std::cell::Cell;
use std::rc::Rc;
use weather_provider::builder::{ProviderManager, ProviderManagerBuilder};
use weather_provider::error::ManagerError;

#[derive(Debug, PartialEq)]
struct Stub {
    id: u32,
}

#[derive(Debug)]
struct Marked {
    mark: Cell<u32>,
}

type Builder = Box<dyn Fn() -> Result<Stub, String>>;

fn counting(counter: &Rc<Cell<u32>>, id: u32) -> Builder {
    let counter = Rc::clone(counter);
    Box::new(move || {
        counter.set(counter.get() + 1);
        Ok(Stub { id })
    })
}

#[test]
fn a_lazy_provider_is_built_once() {
    let calls = Rc::new(Cell::new(0));
    let mut manager: ProviderManager<Stub, Builder> =
        ProviderManagerBuilder::default().add_provider_builder("lazy", counting(&calls, 1)).build();
    assert_eq!(calls.get(), 0);

    let provider = manager.get_provider("lazy").expect("built on first use");
    assert_eq!(provider, &Stub { id: 1 });
    assert_eq!(calls.get(), 1);

    let provider = manager.get_provider("lazy").expect("handed out again");
    assert_eq!(provider, &Stub { id: 1 });
    assert_eq!(calls.get(), 1);

    match manager.is_supported("unknown") {
        Err(ManagerError::NotSupport(name)) => assert_eq!(name, "unknown"),
        other => panic!("unexpected {:?}", other),
    }
    assert!(manager.is_supported("lazy").is_ok());
}

#[test]
fn the_second_lookup_hands_out_the_instance_of_the_first() {
    let built = Rc::new(Cell::new(0));
    let counter = Rc::clone(&built);
    let builder: Box<dyn Fn() -> Result<Marked, String>> = Box::new(move || {
        counter.set(counter.get() + 1);
        Ok(Marked { mark: Cell::new(0) })
    });
    let mut manager = ProviderManagerBuilder::default().add_provider_builder("lazy", builder).build();
    manager.get_provider("lazy").unwrap().mark.set(42);
    assert_eq!(manager.get_provider("lazy").unwrap().mark.get(), 42);
    assert_eq!(built.get(), 1);
}

#[test]
fn an_unknown_name_is_not_supported() {
    let calls = Rc::new(Cell::new(0));
    let mut manager: ProviderManager<Stub, Builder> =
        ProviderManagerBuilder::default().add_provider_builder("lazy", counting(&calls, 1)).build();
    match manager.get_provider("unknown") {
        Err(ManagerError::NotSupport(name)) => assert_eq!(name, "unknown"),
        other => panic!("unexpected {:?}", other),
    }
    assert_eq!(calls.get(), 0);
    let mut empty: ProviderManager<Stub, Builder> = ProviderManagerBuilder::default().build();
    assert!(matches!(empty.get_provider(""), Err(ManagerError::NotSupport(_))));
    assert!(empty.get_list_providers().is_empty());
}

#[test]
fn is_supported_builds_nothing() {
    let calls = Rc::new(Cell::new(0));
    let manager: ProviderManager<Stub, Builder> = ProviderManagerBuilder::default()
        .add_provider("eager", Stub { id: 7 })
        .add_provider_builder("lazy", counting(&calls, 1))
        .build();
    assert!(manager.is_supported("eager").is_ok());
    assert!(manager.is_supported("lazy").is_ok());
    assert!(matches!(manager.is_supported("other"), Err(ManagerError::NotSupport(_))));
    assert_eq!(calls.get(), 0);
}

#[test]
fn an_eager_provider_is_handed_out_as_it_is() {
    let calls = Rc::new(Cell::new(0));
    let mut manager: ProviderManager<Stub, Builder> = ProviderManagerBuilder::default()
        .add_provider("eager", Stub { id: 7 })
        .add_provider_builder("eager", counting(&calls, 1))
        .build();
    assert_eq!(manager.get_provider("eager").unwrap(), &Stub { id: 7 });
    assert_eq!(calls.get(), 0);
    assert_eq!(manager.get_list_providers(), vec!["eager"]);
}

#[test]
fn a_failed_build_is_tried_again() {
    let calls = Rc::new(Cell::new(0));
    let counter = Rc::clone(&calls);
    let flaky: Builder = Box::new(move || {
        counter.set(counter.get() + 1);
        if counter.get() < 3 {
            Err(format!("attempt {}", counter.get()))
        } else {
            Ok(Stub { id: 3 })
        }
    });
    let mut manager: ProviderManager<Stub, Builder> =
        ProviderManagerBuilder::default().add_provider_builder("lazy", flaky).build();
    match manager.get_provider("lazy") {
        Err(ManagerError::Build(name, error)) => {
            assert_eq!(name, "lazy");
            assert_eq!(error, "attempt 1");
        }
        other => panic!("unexpected {:?}", other),
    }
    assert!(manager.is_supported("lazy").is_ok());
    assert_eq!(manager.get_list_providers(), vec!["lazy"]);
    match manager.get_provider("lazy") {
        Err(ManagerError::Build(_, error)) => assert_eq!(error, "attempt 2"),
        other => panic!("unexpected {:?}", other),
    }
    assert_eq!(manager.get_provider("lazy").unwrap(), &Stub { id: 3 });
    assert_eq!(manager.get_provider("lazy").unwrap(), &Stub { id: 3 });
    assert_eq!(calls.get(), 3);
}

#[test]
fn the_list_holds_every_name_once() {
    let calls = Rc::new(Cell::new(0));
    let mut manager: ProviderManager<Stub, Builder> = ProviderManagerBuilder::default()
        .add_provider_builder("open-weather", counting(&calls, 1))
        .add_provider_builder("weather-api", counting(&calls, 2))
        .add_provider("fixed", Stub { id: 3 })
        .add_provider_builder("weather-api", counting(&calls, 4))
        .add_provider("fixed", Stub { id: 5 })
        .build();
    let mut names = manager.get_list_providers();
    names.sort();
    assert_eq!(names, vec!["fixed", "open-weather", "weather-api"]);

    // the later registration under a name counts
    assert_eq!(manager.get_provider("weather-api").unwrap(), &Stub { id: 4 });
    assert_eq!(manager.get_provider("fixed").unwrap(), &Stub { id: 5 });
    assert_eq!(manager.get_provider("open-weather").unwrap(), &Stub { id: 1 });
    assert_eq!(calls.get(), 2);

    // building changes no name
    let mut names = manager.get_list_providers();
    names.sort();
    assert_eq!(names, vec!["fixed", "open-weather", "weather-api"]);
}
