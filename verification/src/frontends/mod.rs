pub mod forza_vjoy;
