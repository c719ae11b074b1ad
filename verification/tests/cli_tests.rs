use iio_probe::cli::parse_args;
use iio_probe::cli::Args;

#[test]
fn no_arguments_use_defaults() {
    let args = parse_args(&vec![]);
    assert_eq!(args.iioroot, "/sys/bus/iio/devices");
    assert_eq!(args.location, None);
}

#[test]
fn first_argument_names_the_root() {
    let args = parse_args(&vec![String::from("/tmp/devices")]);
    assert_eq!(args.iioroot, "/tmp/devices");
    assert_eq!(args.location, None);
}

#[test]
fn second_argument_sets_the_location() {
    let args = Args::parse(&vec![String::from("/tmp/devices"), String::from("attic")]);
    assert_eq!(args.iioroot, "/tmp/devices");
    assert_eq!(args.location, Some(String::from("attic")));
}
