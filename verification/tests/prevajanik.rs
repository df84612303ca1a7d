use slj::prevajanik::{postprocesiraj_preverjeno, Postprocesiraj};

#[test]
fn postprocesiraj_oznake_in_skoki() {
    let vhod = "PUSH #1\n.0main\nJUMP .0konec_x\nreturn\nPC 2\n\n.0konec_x\nJMPC -1\nJUMP\nADD".to_string();
    assert_eq!(vhod.postprocesiraj(), "PUSH #1\nJUMP #5\nJUMP #5\nPUSH #5\nJMPC #4\nJUMP\nADD\n");
}

#[test]
fn postprocesiraj_relativni_skok_nazaj_cez_zacetek() {
    assert_eq!("JUMP -3".to_string().postprocesiraj(), "JUMP #4294967293\n");
    assert_eq!("NOOP\nPC -1".to_string().postprocesiraj(), "NOOP\nPUSH #0\n");
}

#[test]
fn postprocesiraj_zadnja_oznaka_velja() {
    let vhod = ".a\nNOOP\n.a\nNOOP\nJUMP .a".to_string();
    assert_eq!(vhod.postprocesiraj(), "NOOP\nNOOP\nJUMP #1\n");
}

#[test]
fn postprocesiraj_prazno() {
    assert_eq!("".to_string().postprocesiraj(), "");
    assert_eq!("\n\n".to_string().postprocesiraj(), "");
}

#[test]
fn postprocesiraj_preverjeno_izidi() {
    let vhod = "PUSH #1\n.0main\nJUMP .0konec_x\nreturn\nPC 2\n\n.0konec_x\nJMPC -1\nJUMP\nADD";
    assert_eq!(postprocesiraj_preverjeno(vhod), Some(vhod.to_string().postprocesiraj()));
    // a jump to a label that is not there
    assert_eq!(postprocesiraj_preverjeno("JUMP .nikjer"), None);
    // a return with no end of function after it
    assert_eq!(postprocesiraj_preverjeno("return\nNOOP"), None);
    // a PC without an offset, and an offset that is no number
    assert_eq!(postprocesiraj_preverjeno("PC"), None);
    assert_eq!(postprocesiraj_preverjeno("JUMP x"), None);
}
