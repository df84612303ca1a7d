use slj::moznosti::{analiziraj_moznosti, preveri_moznosti, Moznosti};

fn args(a: &[&str]) -> Vec<String> {
    a.iter().map(|s| s.to_string()).collect()
}

#[test]
fn moznosti_privzete() {
    let m = Moznosti::new();
    assert!(!m.pomoc && !m.debug);
    assert_eq!(analiziraj_moznosti(&args(&["pot.slj"])), Moznosti { pomoc: false, debug: false });
    assert_eq!(analiziraj_moznosti(&args(&["-"])), Moznosti { pomoc: false, debug: false });
}

#[test]
fn moznosti_dolge_in_kratke() {
    assert_eq!(analiziraj_moznosti(&args(&["pot.slj", "--pomoč"])), Moznosti { pomoc: true, debug: false });
    assert_eq!(analiziraj_moznosti(&args(&["--debug", "pot.slj"])), Moznosti { pomoc: false, debug: true });
    assert_eq!(analiziraj_moznosti(&args(&["-pd"])), Moznosti { pomoc: true, debug: true });
    assert_eq!(analiziraj_moznosti(&args(&["-d", "-d"])), Moznosti { pomoc: false, debug: true });
}

#[test]
fn moznosti_neznane() {
    assert_eq!(preveri_moznosti(&args(&["--x"])), Err("Neznana možnost: '--x'".to_string()));
    assert_eq!(preveri_moznosti(&args(&["-pq", "--y"])), Err("Neznana možnost: 'q'".to_string()));
    assert_eq!(preveri_moznosti(&args(&["-p", "--pomoc"])), Err("Neznana možnost: '--pomoc'".to_string()));
}
