use wasi_bridge::context::{advance, first_step, step_failure, ContextStep, ResourceError};

fn run(pairs: usize) -> Vec<ContextStep> {
    let mut steps = Vec::new();
    let mut step = first_step();
    while step != ContextStep::Done {
        steps.push(step);
        step = advance(step, pairs, Ok(())).unwrap();
    }
    steps
}

#[test]
fn steps_without_directories() {
    assert_eq!(run(0), vec![ContextStep::Configure, ContextStep::Build]);
}

#[test]
fn steps_with_directories_in_order() {
    assert_eq!(
        run(3),
        vec![
            ContextStep::Configure,
            ContextStep::Preopen(0),
            ContextStep::Preopen(1),
            ContextStep::Preopen(2),
            ContextStep::Build,
        ]
    );
}

#[test]
fn two_directories_with_one_path_get_a_step_each() {
    let dirs = [("/data", 10), ("/data", 11)];
    let steps = run(dirs.len());
    let duplicated: Vec<usize> = steps
        .iter()
        .filter_map(|s| match s {
            ContextStep::Preopen(i) => Some(*i),
            _ => None,
        })
        .collect();
    assert_eq!(duplicated, vec![0, 1]);
    assert_eq!(dirs[duplicated[0]].0, dirs[duplicated[1]].0);
    assert_ne!(dirs[duplicated[0]].1, dirs[duplicated[1]].1);
}

#[test]
fn done_stays_done() {
    assert_eq!(advance(ContextStep::Done, 2, Ok(())), Ok(ContextStep::Done));
    assert_eq!(advance(ContextStep::Build, 2, Ok(())), Ok(ContextStep::Done));
    assert_eq!(advance(ContextStep::Preopen(1), 2, Ok(())), Ok(ContextStep::Build));
    assert_eq!(advance(ContextStep::Preopen(usize::MAX), 2, Ok(())), Ok(ContextStep::Build));
}

#[test]
fn failure_to_duplicate_is_a_resource_error() {
    let r = advance(ContextStep::Preopen(1), 2, Err(String::from("Too many open files")));
    assert_eq!(
        r,
        Err(ResourceError {
            message: String::from(
                "couldn't clone an instance handle to pre-opened dir: Too many open files"
            ),
        })
    );
}

#[test]
fn other_failures_are_context_errors() {
    for step in [ContextStep::Configure, ContextStep::Build, ContextStep::Done] {
        let r = advance(step, 1, Err(String::from("EILSEQ")));
        assert_eq!(
            r,
            Err(ResourceError {
                message: String::from("couldn't assemble WASI context object: EILSEQ"),
            })
        );
    }
    assert_eq!(
        step_failure(ContextStep::Build, "").message,
        "couldn't assemble WASI context object: "
    );
    assert_eq!(
        step_failure(ContextStep::Preopen(0), "x").message,
        "couldn't clone an instance handle to pre-opened dir: x"
    );
}

#[test]
fn preopens_sharing_a_path_are_accepted() {
    let dirs = vec![
        (String::from("/data"), wasi_common::preopen_dir(".").expect("open")),
        (String::from("/data"), wasi_common::preopen_dir(".").expect("open")),
    ];
    let mut builder = None;
    let mut built = false;
    let mut duplicated = 0;
    let mut step = first_step();
    while step != ContextStep::Done {
        let outcome = match step {
            ContextStep::Configure => match wasi_common::WasiCtxBuilder::new()
                .and_then(|b| b.args(["prog", "--flag"].iter()))
                .and_then(|b| b.envs([("K", "V")].iter()))
            {
                Ok(b) => {
                    builder = Some(b);
                    Ok(())
                }
                Err(err) => Err(err.to_string()),
            },
            ContextStep::Preopen(i) => match dirs[i].1.try_clone() {
                Ok(duplicate) => {
                    duplicated += 1;
                    builder = builder.take().map(|b| b.preopened_dir(duplicate, &dirs[i].0));
                    Ok(())
                }
                Err(err) => Err(err.to_string()),
            },
            ContextStep::Build => match builder.take().expect("configured").build() {
                Ok(_) => {
                    built = true;
                    Ok(())
                }
                Err(err) => Err(err.to_string()),
            },
            ContextStep::Done => Ok(()),
        };
        step = advance(step, dirs.len(), outcome).expect("no step fails");
    }
    assert_eq!(duplicated, 2);
    assert!(built);
    // the handles that were given are still open after their duplicates went
    // into the context and the context is gone
    assert!(dirs[0].1.metadata().expect("open").is_dir());
    assert!(dirs[1].1.metadata().expect("open").is_dir());
}
