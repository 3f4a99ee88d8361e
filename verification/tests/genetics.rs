use evosim::gen_alg::{
    create_new_ws_bs, is_gene_file, mutation_sites, splice_genes, tournament_entrants,
    tournament_winner, Contender, GeneInit, Layer,
};

#[test]
fn layer_shapes() {
    let shapes: Vec<(usize, usize)> = Layer::all().iter().map(|l| (l.inputs(), l.outputs())).collect();
    assert_eq!(shapes, vec![(288, 144), (144, 72), (72, 72), (72, 7)]);
    assert_eq!(Layer::First.weights_len(), 41472);
    assert_eq!(Layer::Second.weights_len(), 10368);
    assert_eq!(Layer::Third.weights_len(), 5184);
    assert_eq!(Layer::Fourth.weights_len(), 504);
    assert_eq!(Layer::Fourth.biases_len(), 7);
    assert_eq!(Layer::Third.name(), "third_layer");
    assert_eq!(Layer::First.weights_key(), "first_layer_ws");
    assert_eq!(Layer::Fourth.biases_key(), "fourth_layer_bs");
    let all = Layer::all();
    for w in all.windows(2) {
        assert_eq!(w[0].outputs(), w[1].inputs());
    }
}

#[test]
fn fresh_genomes_alternate_uniform_and_normal() {
    let plan = create_new_ws_bs(2, "herbi");
    let inits: Vec<GeneInit> = plan.iter().map(|r| r.init).collect();
    assert_eq!(inits, vec![GeneInit::Uniform, GeneInit::Normal, GeneInit::Uniform, GeneInit::Normal]);
    assert!(plan.iter().all(|r| r.model == "herbi"));
    assert!(create_new_ws_bs(0, "herbi").is_empty());
    assert!(create_new_ws_bs(-3, "herbi").is_empty());
}

#[test]
fn crossover_takes_the_head_of_one_parent_and_the_tail_of_the_other() {
    let a = vec![1, 2, 3, 4, 5];
    let b = vec![10, 20, 30, 40, 50, 60];
    assert_eq!(splice_genes(&a, &b, 2), vec![1, 2, 30, 40, 50]);
    assert_eq!(splice_genes(&a, &b, 0), vec![10, 20, 30, 40, 50]);
    assert_eq!(splice_genes(&a, &b, 5), a);
    assert_eq!(splice_genes(&a, &a, 3), a);
    let e: Vec<f64> = Vec::new();
    assert!(splice_genes(&e, &e, 0).is_empty());
    let x = vec![0.5f64, -0.25];
    let y = vec![1.5f64, 2.5];
    assert_eq!(splice_genes(&x, &y, 1), vec![0.5, 2.5]);
}

#[test]
fn mutation_sites_stay_inside_the_gene() {
    let sites = mutation_sites(7, 100);
    assert_eq!(sites.len(), 100);
    assert!(sites.iter().all(|&s| s < 7));
    assert!(mutation_sites(0, 0).is_empty());
    assert!(mutation_sites(5, -2).is_empty());
    assert_eq!(mutation_sites(1, 3), vec![0, 0, 0]);
}

#[test]
fn tournament() {
    for _ in 0..100 {
        let (a, b, c, d) = tournament_entrants(3);
        assert!(a < 3 && b < 3 && c < 3 && d < 3);
    }
    assert_eq!(tournament_entrants(1), (0, 0, 0, 0));
    assert_eq!(tournament_winner(true, true), Contender::First);
    assert_eq!(tournament_winner(true, false), Contender::Second);
    assert_eq!(tournament_winner(false, true), Contender::Second);
    assert_eq!(tournament_winner(false, false), Contender::First);
}

#[test]
fn folder_metadata_is_not_a_genome() {
    assert!(is_gene_file("V1StGXR8_Z5jdHi6B-myT"));
    assert!(!is_gene_file(".DS_Store"));
    assert!(!is_gene_file("DS_Store"));
    assert!(is_gene_file("DS_Stor"));
    assert!(is_gene_file(""));
}
